use kinematics_service::pose::assemble;

type V = (i64, i64, i64);

#[test]
fn snapshot_holds_four_chains_in_ascending_leg_order() {
    let chain = |z: i64| -> Vec<V> { vec![(0, 0, z), (1, 0, z), (2, 0, z)] };
    let snapshot = assemble(chain(0), chain(1), chain(2), chain(3));
    assert_eq!(snapshot.chains.len(), 4);
    for (i, chain) in snapshot.chains.iter().enumerate() {
        assert_eq!(chain.leg, i as u8);
    }
    for pair in snapshot.chains.windows(2) {
        assert!(pair[0].leg < pair[1].leg);
    }
}

#[test]
fn each_chain_keeps_the_vertices_it_was_given() {
    let c0: Vec<V> = vec![(0, 0, 0)];
    let c1: Vec<V> = vec![(1, 1, 1), (2, 2, 2)];
    let c2: Vec<V> = vec![];
    let c3: Vec<V> = vec![(3, 3, 3)];
    let snapshot = assemble(c0.clone(), c1.clone(), c2.clone(), c3.clone());
    assert_eq!(snapshot.chains[0].vertices, c0);
    assert_eq!(snapshot.chains[1].vertices, c1);
    assert_eq!(snapshot.chains[2].vertices, c2);
    assert_eq!(snapshot.chains[3].vertices, c3);
}
