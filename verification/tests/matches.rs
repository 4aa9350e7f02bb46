use minrx::matches::{capture_buffer, collect_captures};
use minrx::{Match, MatchError, RegMatch};

#[test]
fn match_range_covers_offsets() {
    let m = Match { start: 3, end: 6 };
    assert_eq!(m.range(), 3..6);
    let r: std::ops::Range<usize> = m.into();
    assert_eq!(r, 3..6);
    assert_eq!(&"abc123def"[m.range()], "123");
}

#[test]
fn match_ordering_is_by_start_then_end() {
    assert!(Match { start: 0, end: 9 } < Match { start: 1, end: 2 });
    assert!(Match { start: 1, end: 2 } < Match { start: 1, end: 3 });
    assert!(Match { start: 2, end: 2 } > Match { start: 1, end: 3 });
}

#[test]
fn match_from_raw_reads_offsets() {
    assert_eq!(Match::from_raw(RegMatch { rm_so: 2, rm_eo: 6 }), Some(Match { start: 2, end: 6 }));
    assert_eq!(Match::from_raw(RegMatch { rm_so: 0, rm_eo: 0 }), Some(Match { start: 0, end: 0 }));
}

#[test]
fn match_from_raw_unset_group_is_none() {
    assert_eq!(Match::from_raw(RegMatch { rm_so: -1, rm_eo: -1 }), None);
    assert_eq!(Match::from_raw(RegMatch { rm_so: -1, rm_eo: 4 }), None);
    assert_eq!(Match::from_raw(RegMatch { rm_so: 4, rm_eo: -1 }), None);
}

#[test]
fn captures_of_a_match_follow_the_buffer() {
    let buf = [
        RegMatch { rm_so: 0, rm_eo: 6 },
        RegMatch { rm_so: 0, rm_eo: 3 },
        RegMatch { rm_so: -1, rm_eo: -1 },
        RegMatch { rm_so: 3, rm_eo: 6 },
    ];
    let caps = collect_captures(3, Ok(true), &buf).unwrap().unwrap();
    assert_eq!(caps.len(), 4);
    assert_eq!(caps[0], Some(Match { start: 0, end: 6 }));
    assert_eq!(caps[1], Some(Match { start: 0, end: 3 }));
    assert_eq!(caps[2], None);
    assert_eq!(caps[3], Some(Match { start: 3, end: 6 }));
}

#[test]
fn captures_without_a_match_are_none() {
    let buf = [RegMatch { rm_so: 7, rm_eo: 9 }];
    assert_eq!(collect_captures(0, Ok(false), &buf), Ok(None));
}

#[test]
fn captures_pass_the_error_on() {
    let buf = [RegMatch { rm_so: 0, rm_eo: 1 }];
    let e = MatchError::AllocError("out of memory".to_string());
    assert_eq!(collect_captures(0, Err(e.clone()), &buf), Err(e));
}

#[test]
fn captures_without_groups_hold_the_whole_match() {
    let buf = [RegMatch { rm_so: 2, rm_eo: 5 }];
    assert_eq!(collect_captures(0, Ok(true), &buf), Ok(Some(vec![Some(Match { start: 2, end: 5 })])));
}

#[test]
fn capture_buffer_has_a_slot_per_group_and_one_more() {
    let unset = RegMatch { rm_so: -1, rm_eo: -1 };
    assert_eq!(capture_buffer(0), vec![unset]);
    assert_eq!(capture_buffer(3), vec![unset; 4]);
}

#[test]
fn captures_of_an_unfilled_buffer_are_all_none() {
    let caps = collect_captures(2, Ok(true), &capture_buffer(2)).unwrap().unwrap();
    assert_eq!(caps, vec![None, None, None]);
}

#[test]
fn captures_come_back_exactly_for_a_match() {
    let buf = [RegMatch { rm_so: 0, rm_eo: 1 }];
    assert!(matches!(collect_captures(0, Ok(true), &buf), Ok(Some(_))));
    assert!(matches!(collect_captures(0, Ok(false), &buf), Ok(None)));
    assert!(collect_captures(0, Err(MatchError::Unknown("x".to_string())), &buf).is_err());
}
