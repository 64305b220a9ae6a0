use libcontainer::status::ContainerStatus;

const ALL: [ContainerStatus; 5] = [
    ContainerStatus::Creating,
    ContainerStatus::Created,
    ContainerStatus::Running,
    ContainerStatus::Stopped,
    ContainerStatus::Paused,
];

#[test]
fn creating_moves_to_created_only() {
    assert!(ContainerStatus::Creating.can_move_to(ContainerStatus::Created));
    assert!(!ContainerStatus::Creating.can_move_to(ContainerStatus::Running));
    assert!(!ContainerStatus::Creating.can_move_to(ContainerStatus::Stopped));
    assert!(!ContainerStatus::Creating.can_move_to(ContainerStatus::Paused));
    assert!(!ContainerStatus::Creating.can_move_to(ContainerStatus::Creating));
}

#[test]
fn the_moves_of_the_life_cycle_are_five() {
    let mut moves = Vec::new();
    for from in ALL {
        for to in ALL {
            if from.can_move_to(to) {
                moves.push((from, to));
            }
        }
    }
    assert_eq!(
        moves,
        vec![
            (ContainerStatus::Creating, ContainerStatus::Created),
            (ContainerStatus::Created, ContainerStatus::Running),
            (ContainerStatus::Running, ContainerStatus::Stopped),
            (ContainerStatus::Running, ContainerStatus::Paused),
            (ContainerStatus::Paused, ContainerStatus::Running),
        ]
    );
}

#[test]
fn no_move_enters_creating() {
    for from in ALL {
        assert!(!from.can_move_to(ContainerStatus::Creating));
    }
}

#[test]
fn paused_returns_to_running() {
    assert!(ContainerStatus::Running.can_move_to(ContainerStatus::Paused));
    assert!(ContainerStatus::Paused.can_move_to(ContainerStatus::Running));
    assert!(!ContainerStatus::Paused.can_move_to(ContainerStatus::Stopped));
}

#[test]
fn stopped_leads_nowhere_else() {
    for to in ALL {
        assert_eq!(ContainerStatus::Stopped.leads_to(to), to == ContainerStatus::Stopped);
        assert!(!ContainerStatus::Stopped.can_move_to(to));
    }
}

#[test]
fn creating_leads_everywhere() {
    for to in ALL {
        assert!(ContainerStatus::Creating.leads_to(to));
    }
}

#[test]
fn leads_to_is_what_moves_reach() {
    // The closure of the moves, computed by trying walks of up to five moves.
    for from in ALL {
        let mut reached = vec![from];
        for _ in 0..5 {
            let mut more = Vec::new();
            for at in &reached {
                for to in ALL {
                    if at.can_move_to(to) && !reached.contains(&to) && !more.contains(&to) {
                        more.push(to);
                    }
                }
            }
            reached.extend(more);
        }
        for to in ALL {
            assert_eq!(from.leads_to(to), reached.contains(&to), "{:?} to {:?}", from, to);
        }
    }
}
