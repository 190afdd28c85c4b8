use kinematics_service::routing::{route, split_instruction_name, InstructionKind, RouteError};

#[test]
fn known_instruction_names_route_to_their_kinds() {
    assert_eq!(
        route("kinematics.instructions.change_torso_orientation"),
        Ok(InstructionKind::ChangeTorsoOrientation)
    );
    assert_eq!(
        route("kinematics.instructions.change_torso_position"),
        Ok(InstructionKind::ChangeTorsoPosition)
    );
    assert_eq!(
        route("kinematics.instructions.change_paw_position"),
        Ok(InstructionKind::ChangePawPosition)
    );
}

#[test]
fn key_without_delimiter_is_invalid() {
    assert_eq!(route("levitate"), Err(RouteError::InvalidRoutingKey));
    assert_eq!(route(""), Err(RouteError::InvalidRoutingKey));
    assert_eq!(
        route("change_paw_position"),
        Err(RouteError::InvalidRoutingKey)
    );
}

#[test]
fn unknown_instruction_name_is_turned_away() {
    assert_eq!(
        route("kinematics.instructions.levitate"),
        Err(RouteError::UnknownInstruction)
    );
    assert_eq!(route("a."), Err(RouteError::UnknownInstruction));
    assert_eq!(
        route(".change_paw_position_"),
        Err(RouteError::UnknownInstruction)
    );
}

#[test]
fn name_is_the_segment_after_the_last_delimiter() {
    assert_eq!(
        split_instruction_name("kinematics.instructions.change_paw_position"),
        Some("change_paw_position")
    );
    assert_eq!(split_instruction_name("a.b.c"), Some("c"));
    assert_eq!(split_instruction_name("trailing."), Some(""));
    assert_eq!(split_instruction_name(".leading"), Some("leading"));
    assert_eq!(split_instruction_name("no_delimiter"), None);
}

#[test]
fn only_the_final_segment_decides_the_kind() {
    assert_eq!(
        route("anything.at.all.change_torso_position"),
        Ok(InstructionKind::ChangeTorsoPosition)
    );
    assert_eq!(
        route("change_paw_position.unknown"),
        Err(RouteError::UnknownInstruction)
    );
}
