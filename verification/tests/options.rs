use minrx::codes::{
    REG_BRACE_COMPAT, REG_BRACK_ESCAPE, REG_EXTENDED, REG_EXTENSIONS_BSD, REG_EXTENSIONS_GNU,
    REG_FIRSTSUB, REG_ICASE, REG_MINDISABLE, REG_MINIMAL, REG_NATIVE1B, REG_NEWLINE,
    REG_NOFIRSTBYTES, REG_NOSUB, REG_NOSUBRESET, REG_NOTBOL, REG_NOTEOL,
};
use minrx::{mask, MatchOptions, RegexBuilder};

#[test]
fn mask_sets_and_clears() {
    assert_eq!(mask(0b0001, 0b0100, true), 0b0101);
    assert_eq!(mask(0b0101, 0b0100, false), 0b0001);
    assert_eq!(mask(0b0101, 0b0100, true), 0b0101);
    assert_eq!(mask(0b0001, 0b0100, false), 0b0001);
}

#[test]
fn mask_last_call_wins() {
    let set = 0b1010u32;
    assert_eq!(mask(mask(set, 0b0010, true), 0b0010, false), mask(set, 0b0010, false));
    assert_eq!(mask(mask(set, 0b0001, false), 0b0001, true), mask(set, 0b0001, true));
}

#[test]
fn mask_disjoint_bits_commute() {
    let set = 0b1010u32;
    assert_eq!(
        mask(mask(set, 0b0001, true), 0b1000, false),
        mask(mask(set, 0b1000, false), 0b0001, true)
    );
}

#[test]
fn builder_starts_with_extended_syntax() {
    assert_eq!(RegexBuilder::new().as_c_int(), REG_EXTENDED as i32);
    assert_eq!(RegexBuilder::default(), RegexBuilder::new());
}

#[test]
fn builder_setters_switch_their_flag() {
    let cases: [(fn(&mut RegexBuilder, bool) -> RegexBuilder, u32); 10] = [
        (RegexBuilder::case_insensitive, REG_ICASE),
        (RegexBuilder::swap_greed, REG_MINIMAL),
        (RegexBuilder::multi_line, REG_NEWLINE),
        (RegexBuilder::no_substrings, REG_NOSUB),
        (RegexBuilder::brace_compat, REG_BRACE_COMPAT),
        (RegexBuilder::escapes_in_brackets, REG_BRACK_ESCAPE),
        (RegexBuilder::bsd_extensions, REG_EXTENSIONS_BSD),
        (RegexBuilder::gnu_extensions, REG_EXTENSIONS_GNU),
        (RegexBuilder::native_encoding, REG_NATIVE1B),
        (RegexBuilder::disable_min_reps, REG_MINDISABLE),
    ];
    for (setter, bit) in cases {
        let mut b = RegexBuilder::new();
        let on = setter(&mut b, true);
        assert_eq!(on, b);
        assert_eq!(b.as_c_int(), (REG_EXTENDED | bit) as i32);
        let off = setter(&mut b, false);
        assert_eq!(off, b);
        assert_eq!(b.as_c_int(), REG_EXTENDED as i32);
    }
}

#[test]
fn builder_setter_changes_the_builder_it_is_called_on() {
    let mut builder = RegexBuilder::new();
    builder.case_insensitive(true);
    assert_eq!(builder.as_c_int(), (REG_EXTENDED | REG_ICASE) as i32);
}

#[test]
fn builder_setters_chain() {
    let b = RegexBuilder::new().case_insensitive(true).multi_line(true).swap_greed(true);
    assert_eq!(b.as_c_int(), (REG_EXTENDED | REG_ICASE | REG_NEWLINE | REG_MINIMAL) as i32);
}

#[test]
fn builder_extended_changes_nothing() {
    let mut b = RegexBuilder::new();
    let same = b.extended(false);
    assert_eq!(same, RegexBuilder::new());
    assert_eq!(b, RegexBuilder::new());
    b.extended(true);
    assert_eq!(b, RegexBuilder::new());
}

#[test]
fn builder_last_setting_wins() {
    let mut a = RegexBuilder::new();
    a.gnu_extensions(true);
    a.gnu_extensions(false);
    assert_eq!(a, RegexBuilder::new());
}

#[test]
fn builder_options_are_independent() {
    let a = RegexBuilder::new().bsd_extensions(true).no_substrings(true);
    let b = RegexBuilder::new().no_substrings(true).bsd_extensions(true);
    assert_eq!(a, b);
    let c = a.clone().no_substrings(false);
    assert_eq!(c.as_c_int(), (REG_EXTENDED | REG_EXTENSIONS_BSD) as i32);
}

#[test]
fn options_start_empty() {
    assert_eq!(MatchOptions::new().as_c_int(), 0);
    assert_eq!(MatchOptions::default(), MatchOptions::new());
}

#[test]
fn options_setters_switch_their_flag() {
    let cases: [(fn(&mut MatchOptions, bool) -> MatchOptions, u32); 5] = [
        (MatchOptions::not_bol, REG_NOTBOL),
        (MatchOptions::not_eol, REG_NOTEOL),
        (MatchOptions::first_subexpr, REG_FIRSTSUB),
        (MatchOptions::no_subexpr_reset, REG_NOSUBRESET),
        (MatchOptions::no_first_bytes, REG_NOFIRSTBYTES),
    ];
    for (setter, bit) in cases {
        let mut o = MatchOptions::new();
        assert_eq!(setter(&mut o, true).as_c_int(), bit as i32);
        assert_eq!(o.as_c_int(), bit as i32);
        assert_eq!(setter(&mut o, false).as_c_int(), 0);
    }
}

#[test]
fn options_setter_changes_the_options_it_is_called_on() {
    let mut opts = MatchOptions::new();
    opts.not_bol(true);
    opts.not_eol(true);
    assert_eq!(opts.as_c_int(), (REG_NOTBOL | REG_NOTEOL) as i32);
    opts.not_bol(false);
    assert_eq!(opts.as_c_int(), REG_NOTEOL as i32);
}
