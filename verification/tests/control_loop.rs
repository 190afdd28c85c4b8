use kinematics_service::control::{ControlLoop, RouteDirective};
use kinematics_service::controller::SolverCommand;
use kinematics_service::instruction::Instruction;
use kinematics_service::routing::InstructionKind;

type V = (i64, i64, i64);

#[test]
fn a_fresh_loop_is_running() {
    let ctrl = ControlLoop::start();
    assert!(ctrl.running());
}

#[test]
fn invalid_key_finishes_its_iteration_with_a_log() {
    let mut ctrl = ControlLoop::start();
    let d = ctrl.on_message("levitate");
    assert_eq!(d, RouteDirective::LogInvalidKey);
    // the iteration is over: the next message is routed straight away
    let d = ctrl.on_message("kinematics.instructions.change_paw_position");
    assert_eq!(
        d,
        RouteDirective::DecodePayload {
            kind: InstructionKind::ChangePawPosition
        }
    );
}

#[test]
fn unknown_name_draws_a_warning_and_nothing_else() {
    let mut ctrl = ControlLoop::start();
    let d = ctrl.on_message("kinematics.instructions.levitate");
    assert_eq!(d, RouteDirective::LogUnknownName);
    assert!(ctrl.running());
}

#[test]
fn a_converged_solve_asks_for_a_broadcast() {
    let mut ctrl = ControlLoop::start();
    let d = ctrl.on_message("kinematics.instructions.change_torso_position");
    assert_eq!(
        d,
        RouteDirective::DecodePayload {
            kind: InstructionKind::ChangeTorsoPosition
        }
    );
    let instruction: Instruction<V> = Instruction::ChangeTorsoPosition {
        position: (0, 0, 5),
        relative: false,
    };
    let command = ctrl.on_instruction(instruction);
    assert_eq!(
        command,
        SolverCommand::MoveTorsoAbsolute { position: (0, 0, 5) }
    );
    let publish = ctrl.on_solve_result(true);
    assert!(publish);
}

#[test]
fn a_failed_solve_asks_for_no_broadcast() {
    let mut ctrl = ControlLoop::start();
    ctrl.on_message("kinematics.instructions.change_paw_position");
    let command = ctrl.on_instruction(Instruction::ChangePawPosition {
        leg: 1,
        position: (1000, 1000, 1000),
        relative: false,
    });
    assert_eq!(
        command,
        SolverCommand::MovePawAbsolute {
            leg: 1,
            position: (1000, 1000, 1000)
        }
    );
    let publish = ctrl.on_solve_result(false);
    assert!(!publish);
}

#[test]
fn a_decode_failure_drops_only_its_own_iteration() {
    let mut ctrl = ControlLoop::start();
    ctrl.on_message("kinematics.instructions.change_torso_orientation");
    ctrl.on_decode_failed();
    // the loop keeps running and handles the next message in full
    ctrl.on_message("kinematics.instructions.change_torso_orientation");
    let command = ctrl.on_instruction(Instruction::ChangeTorsoOrientation {
        orientation: (0, 0, 1),
        relative: true,
    });
    assert_eq!(
        command,
        SolverCommand::OrientTorsoRelative { orientation: (0, 0, 1) }
    );
    assert!(ctrl.on_solve_result(true));
}

#[test]
fn messages_are_processed_one_after_another() {
    let mut ctrl = ControlLoop::start();
    let keys = [
        "kinematics.instructions.change_torso_position",
        "garbage",
        "kinematics.instructions.levitate",
        "kinematics.instructions.change_paw_position",
    ];
    let mut publishes = 0u32;
    for key in keys {
        match ctrl.on_message(key) {
            RouteDirective::LogInvalidKey => {}
            RouteDirective::LogUnknownName => {}
            RouteDirective::DecodePayload { kind } => {
                let instruction: Instruction<V> = match kind {
                    InstructionKind::ChangeTorsoOrientation => {
                        Instruction::ChangeTorsoOrientation {
                            orientation: (0, 0, 0),
                            relative: false,
                        }
                    }
                    InstructionKind::ChangeTorsoPosition => Instruction::ChangeTorsoPosition {
                        position: (0, 0, 1),
                        relative: true,
                    },
                    InstructionKind::ChangePawPosition => Instruction::ChangePawPosition {
                        leg: 0,
                        position: (1, 1, 1),
                        relative: true,
                    },
                };
                ctrl.on_instruction(instruction);
                if ctrl.on_solve_result(true) {
                    publishes += 1;
                }
            }
        }
    }
    // only the two well-routed messages reached the solver and were published
    assert_eq!(publishes, 2);
    assert!(ctrl.running());
}

#[test]
fn a_closed_source_stops_the_loop() {
    let mut ctrl = ControlLoop::start();
    ctrl.on_message("kinematics.instructions.levitate");
    ctrl.on_source_closed();
    assert!(!ctrl.running());
}
