use voutil::navigation::{next_attempt, previous_attempt, thumbnail_step};

fn walk(start: usize, len: usize, forward: bool) -> Vec<usize> {
    let mut out = Vec::new();
    let mut prev = None;
    loop {
        let next = if forward { next_attempt(start, prev, len) } else { previous_attempt(start, prev, len) };
        match next {
            Some(i) => {
                out.push(i);
                prev = Some(i);
            }
            None => break,
        }
    }
    out
}

#[test]
fn forward_walk_visits_others_once() {
    assert_eq!(walk(1, 4, true), vec![2, 3, 0]);
    assert_eq!(walk(0, 1, true), Vec::<usize>::new());
    assert_eq!(walk(3, 4, true), vec![0, 1, 2]);
}

#[test]
fn backward_walk_visits_others_once() {
    assert_eq!(walk(1, 4, false), vec![0, 3, 2]);
    assert_eq!(walk(0, 3, false), vec![2, 1]);
}

#[test]
fn walk_on_empty_list() {
    assert_eq!(next_attempt(0, None, 0), None);
    assert_eq!(previous_attempt(0, None, 0), None);
}

#[test]
fn thumbnail_steps_are_clamped() {
    assert_eq!(thumbnail_step(2, 1, 5), Some(3));
    assert_eq!(thumbnail_step(2, -5, 5), Some(0));
    assert_eq!(thumbnail_step(2, 10, 5), Some(4));
    assert_eq!(thumbnail_step(4, 1, 5), None);
    assert_eq!(thumbnail_step(0, -1, 5), None);
}
