use bwmp::shuffle::{position_of, shuffle_list};

fn holds_each_track_once(order: &Vec<u16>, n: u16) -> bool {
    if order.len() != n as usize {
        return false;
    }
    let mut seen = vec![false; n as usize];
    for &track in order {
        if track >= n || seen[track as usize] {
            return false;
        }
        seen[track as usize] = true;
    }
    seen.iter().all(|&s| s)
}

#[test]
fn shuffle_list_holds_each_track_once() {
    for n in [0u16, 1, 2, 3, 10, 257, 5000] {
        let order = shuffle_list(n);
        assert!(holds_each_track_once(&order, n));
    }
}

#[test]
fn shuffle_list_of_the_longest_list() {
    let order = shuffle_list(u16::MAX);
    assert!(holds_each_track_once(&order, u16::MAX));
}

#[test]
fn shuffle_list_changes_the_order() {
    // The chance that 200 tracks come out in their straight order is 1 in 200!.
    let straight: Vec<u16> = (0..200).collect();
    assert_ne!(shuffle_list(200), straight);
}

#[test]
fn shuffle_list_differs_from_call_to_call() {
    assert_ne!(shuffle_list(200), shuffle_list(200));
}

#[test]
fn position_of_finds_the_track() {
    let order = vec![3u16, 0, 2, 1];
    assert_eq!(position_of(&order, 3), 0);
    assert_eq!(position_of(&order, 0), 1);
    assert_eq!(position_of(&order, 2), 2);
    assert_eq!(position_of(&order, 1), 3);
    let order = shuffle_list(50);
    for track in 0..50u16 {
        assert_eq!(order[position_of(&order, track) as usize], track);
    }
}
