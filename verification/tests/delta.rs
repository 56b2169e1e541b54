use shipit::error::ShipItError;
use shipit::repo::{closure_from, delta_walk, Commit, CommitGraph};

fn commit(id: &str, msg: Option<&str>, parents: Vec<usize>) -> Commit {
    Commit { id: id.to_string(), message: msg.map(|m| m.to_string()), parents }
}

/// main holds C1 -> C2 -> C3; feature branches at C1 and adds C4, C5.
fn feature_graph() -> CommitGraph {
    CommitGraph {
        commits: vec![
            commit("c1", Some("first"), vec![]),
            commit("c2", Some("second"), vec![0]),
            commit("c3", Some("third"), vec![1]),
            commit("c4", Some("fourth"), vec![0]),
            commit("c5", Some("fifth"), vec![3]),
        ],
    }
}

#[test]
fn feature_branch_delta_newest_first() {
    let graph = feature_graph();
    let delta = delta_walk(&graph, 4, 2).unwrap();
    assert_eq!(delta.len(), 2);
    assert_eq!(delta[0].id, "c5");
    assert_eq!(delta[0].message, "fifth");
    assert_eq!(delta[1].id, "c4");
    assert_eq!(delta[1].message, "fourth");
}

#[test]
fn superset_source_delta_is_the_extra_commits() {
    let graph = feature_graph();
    // source at C3, target at C1: the delta is [C3, C2], newest first,
    // excluding the shared ancestor C1.
    let delta = delta_walk(&graph, 2, 0).unwrap();
    assert_eq!(delta.len(), 2);
    assert_eq!(delta[0].id, "c3");
    assert_eq!(delta[1].id, "c2");
}

#[test]
fn same_tip_delta_is_empty() {
    let graph = feature_graph();
    let delta = delta_walk(&graph, 2, 2).unwrap();
    assert_eq!(delta.len(), 0);
}

#[test]
fn target_ahead_of_source_delta_is_empty() {
    let graph = feature_graph();
    // source at C1, target at C3: everything reachable from C1 is also
    // reachable from C3.
    let delta = delta_walk(&graph, 0, 2).unwrap();
    assert_eq!(delta.len(), 0);
}

#[test]
fn missing_message_in_delta_fails_the_walk() {
    let graph = CommitGraph {
        commits: vec![
            commit("c1", Some("first"), vec![]),
            commit("c2", None, vec![0]),
            commit("c3", Some("third"), vec![1]),
        ],
    };
    let r = delta_walk(&graph, 2, 0);
    assert_eq!(r.unwrap_err(), ShipItError::HistoryWalkFailed);
}

#[test]
fn missing_message_outside_delta_is_harmless() {
    let graph = CommitGraph {
        commits: vec![
            commit("c1", None, vec![]),
            commit("c2", Some("second"), vec![0]),
            commit("c3", Some("third"), vec![1]),
        ],
    };
    // C1's missing message sits below the target tip C2 and is never read.
    let delta = delta_walk(&graph, 2, 1).unwrap();
    assert_eq!(delta.len(), 1);
    assert_eq!(delta[0].id, "c3");
}

#[test]
fn closure_marks_exactly_the_ancestors() {
    let graph = feature_graph();
    let reach = closure_from(&graph, 4);
    assert_eq!(reach, vec![true, false, false, true, true]);
    let reach = closure_from(&graph, 2);
    assert_eq!(reach, vec![true, true, true, false, false]);
}

#[test]
fn merge_commit_reaches_both_parents() {
    let graph = CommitGraph {
        commits: vec![
            commit("c1", Some("first"), vec![]),
            commit("c2", Some("second"), vec![0]),
            commit("c3", Some("third"), vec![0]),
            commit("c4", Some("merge"), vec![1, 2]),
        ],
    };
    let reach = closure_from(&graph, 3);
    assert_eq!(reach, vec![true, true, true, true]);
    // Diffing the merge tip against C2 leaves the merge and C3.
    let delta = delta_walk(&graph, 3, 1).unwrap();
    assert_eq!(delta.len(), 2);
    assert_eq!(delta[0].id, "c4");
    assert_eq!(delta[1].id, "c3");
}
