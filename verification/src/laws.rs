//! Laws of the status grammar, stated and proved against the
//! classification spec: every well-formed line of each family parses to
//! its fields, and a line matching no family degrades to `Unknown`.
use vstd::prelude::*;

use crate::state::StateView;
use crate::state::down_line_fields;
use crate::state::fail_line_fields;
use crate::state::name_end;
use crate::state::parse_pid_uptime;
use crate::state::run_line_fields;
use crate::state::spec_from_sv_status;
use crate::text::all_digits;
use crate::text::digits_val;
use crate::text::first_line_trimmed;
use crate::text::is_digit_char;
use crate::text::lemma_end_of_digits_exact;
use crate::text::lemma_find_char_exact;
use crate::text::lemma_skip_spaces_exact;

verus! {

/// A canonical line of the run grammar, with single spaces.
pub open spec fn run_status_line(
    name: Seq<char>,
    pid_digits: Seq<char>,
    up_digits: Seq<char>,
) -> Seq<char> {
    "run: "@ + name + ": (pid "@ + pid_digits + ") "@ + up_digits + "s"@
}

/// A name the grammars accept: non-empty, without the colon that ends it
/// and without a line break.
pub open spec fn grammar_name(name: Seq<char>) -> bool {
    name.len() > 0 && (forall|i: int|
        0 <= i < name.len() ==> #[trigger] name[i] != ':' && name[i] != '\n')
}

/// For all representable P and U, a `run: NAME: (pid P) Us` line parses to
/// `Running` with exactly that pid and uptime.
#[verifier::rlimit(100)]
pub proof fn lemma_run_line_parses(name: Seq<char>, pid_digits: Seq<char>, up_digits: Seq<char>)
    requires
        grammar_name(name),
        pid_digits.len() > 0,
        all_digits(pid_digits),
        digits_val(pid_digits) <= u32::MAX,
        up_digits.len() > 0,
        all_digits(up_digits),
        digits_val(up_digits) <= u64::MAX,
    ensures
        spec_from_sv_status(run_status_line(name, pid_digits, up_digits)) == (StateView::Running {
            pid: digits_val(pid_digits) as u32,
            uptime_seconds: digits_val(up_digits) as u64,
        }),
{
    reveal_strlit("run: ");
    reveal_strlit(": (pid ");
    reveal_strlit(") ");
    reveal_strlit("s");
    let t = run_status_line(name, pid_digits, up_digits);
    let p1 = 5 + name.len() as int;
    let p2 = p1 + 7;
    let p3 = p2 + pid_digits.len() as int;
    let p4 = p3 + 2;
    let p5 = p4 + up_digits.len() as int;
    assert("run: "@.len() == 5);
    assert(": (pid "@.len() == 7);
    assert(") "@.len() == 2);
    assert("s"@.len() == 1);
    assert(t.len() == p5 + 1);
    assert(forall|k: int| 0 <= k < 5 ==> t[k] == "run: "@[k]);
    assert(forall|k: int| 5 <= k < p1 ==> t[k] == name[k - 5]);
    assert(forall|k: int| p1 <= k < p2 ==> t[k] == ": (pid "@[k - p1]);
    assert(forall|k: int| p2 <= k < p3 ==> t[k] == pid_digits[k - p2]);
    assert(forall|k: int| p3 <= k < p4 ==> t[k] == ") "@[k - p3]);
    assert(forall|k: int| p4 <= k < p5 ==> t[k] == up_digits[k - p4]);
    assert(t[p5] == 's');

    assert forall|k: int| 0 <= k < t.len() implies t[k] != '\n' by {
        if p2 <= k < p3 {
            assert(is_digit_char(pid_digits[k - p2]));
        }
        if p4 <= k < p5 {
            assert(is_digit_char(up_digits[k - p4]));
        }
    }
    lemma_find_char_exact(t, 0, t.len() as int, '\n');
    assert(first_line_trimmed(t) =~= t);

    assert(forall|k: int| 5 <= k < p1 ==> t[k] != ':');
    lemma_find_char_exact(t, 5, p1, ':');
    assert(name_end(t, 4) == Some(p1));

    lemma_skip_spaces_exact(t, p1 + 1, p1 + 2);
    assert(t[p1 + 2] == '(' && t[p1 + 3] == 'p' && t[p1 + 4] == 'i' && t[p1 + 5] == 'd');
    assert(is_digit_char(t[p2]));
    lemma_skip_spaces_exact(t, p1 + 6, p2);
    lemma_end_of_digits_exact(t, p2, p3);
    assert(t[p3] == ')');
    assert(is_digit_char(t[p4]));
    lemma_skip_spaces_exact(t, p3 + 1, p4);
    lemma_end_of_digits_exact(t, p4, p5);
    assert(t.subrange(p2, p3) =~= pid_digits);
    assert(t.subrange(p4, p5) =~= up_digits);
    assert(parse_pid_uptime(t, p1 + 1) == Some(
        (digits_val(pid_digits), digits_val(up_digits), p5),
    ));
    assert(run_line_fields(t) == Some((digits_val(pid_digits), digits_val(up_digits))));
}

/// A canonical line of the down grammar, with or without the
/// `, normally up` suffix.
pub open spec fn down_status_line(
    name: Seq<char>,
    since_digits: Seq<char>,
    normally_up: bool,
) -> Seq<char> {
    let base = "down: "@ + name + ": "@ + since_digits + "s"@;
    if normally_up {
        base + ", normally up"@
    } else {
        base
    }
}

/// A `down: NAME: Ss, normally up` line parses to `Down` with that since
/// count and `normally_up` true; without the suffix, `normally_up` is
/// false.
#[verifier::rlimit(100)]
pub proof fn lemma_down_line_parses(name: Seq<char>, since_digits: Seq<char>, normally_up: bool)
    requires
        grammar_name(name),
        since_digits.len() > 0,
        all_digits(since_digits),
        digits_val(since_digits) <= u64::MAX,
    ensures
        spec_from_sv_status(down_status_line(name, since_digits, normally_up)) == (StateView::Down {
            since_seconds: digits_val(since_digits) as u64,
            normally_up: normally_up,
        }),
{
    reveal_strlit("down: ");
    reveal_strlit(": ");
    reveal_strlit("s");
    reveal_strlit(", normally up");
    reveal_strlit("normally up");
    let t = down_status_line(name, since_digits, normally_up);
    let p1 = 6 + name.len() as int;
    let p2 = p1 + 2;
    let p3 = p2 + since_digits.len() as int;
    let suffix_len: int = if normally_up {
        13
    } else {
        0
    };
    assert("down: "@.len() == 6);
    assert(": "@.len() == 2);
    assert("s"@.len() == 1);
    assert(", normally up"@.len() == 13);
    assert("normally up"@.len() == 11);
    assert(t.len() == p3 + 1 + suffix_len);
    assert(forall|k: int| 0 <= k < 6 ==> t[k] == "down: "@[k]);
    assert(forall|k: int| 6 <= k < p1 ==> t[k] == name[k - 6]);
    assert(forall|k: int| p1 <= k < p2 ==> t[k] == ": "@[k - p1]);
    assert(forall|k: int| p2 <= k < p3 ==> t[k] == since_digits[k - p2]);
    assert(t[p3] == 's');
    assert(forall|k: int| p3 + 1 <= k < t.len() ==> t[k] == ", normally up"@[k - (p3 + 1)]);

    assert forall|k: int| 0 <= k < t.len() implies t[k] != '\n' by {
        if p2 <= k < p3 {
            assert(is_digit_char(since_digits[k - p2]));
        }
    }
    lemma_find_char_exact(t, 0, t.len() as int, '\n');
    assert(t[t.len() - 1] != ' ' && t[t.len() - 1] != '\n');
    assert(first_line_trimmed(t) =~= t);

    assert(run_line_fields(t) is None);

    assert(forall|k: int| 7 <= k < p1 ==> t[k] != ':');
    assert(t[6] != ':');
    lemma_find_char_exact(t, 6, p1, ':');
    assert(name_end(t, 5) == Some(p1));
    assert(is_digit_char(t[p2]));
    lemma_skip_spaces_exact(t, p1 + 1, p2);
    lemma_end_of_digits_exact(t, p2, p3);
    assert(t.subrange(p2, p3) =~= since_digits);

    if normally_up {
        assert forall|i: int| 0 <= i < 11 implies t[p3 + 3 + i] == "normally up"@[i] by {
            let k = p3 + 3 + i;
            assert(p3 + 1 <= k < t.len());
            assert(t[k] == ", normally up"@[k - (p3 + 1)]);
            assert(", normally up"@[i + 2] == "normally up"@[i]);
        }
        assert(t.subrange(p3 + 3, p3 + 3 + 11) =~= "normally up"@);
        assert(crate::text::has_substring_at(t, p3 + 3, "normally up"@));
        assert(crate::text::contains_from(t, p3 + 1, "normally up"@));
    } else {
        assert forall|k: int| p3 + 1 <= k implies !crate::text::has_substring_at(
            t,
            k,
            "normally up"@,
        ) by {
            assert(k + 11 > t.len());
        }
        assert(!crate::text::contains_from(t, p3 + 1, "normally up"@));
    }
    assert(down_line_fields(t) == Some((digits_val(since_digits) as u64, normally_up)));
}

/// A canonical line of the fail grammar; the exit code may carry a sign.
pub open spec fn fail_status_line(
    name: Seq<char>,
    pid_digits: Seq<char>,
    up_digits: Seq<char>,
    negative_exit: bool,
    exit_digits: Seq<char>,
) -> Seq<char> {
    "fail: "@ + name + ": (pid "@ + pid_digits + ") "@ + up_digits + "s, exit "@ + (
    if negative_exit {
        "-"@
    } else {
        Seq::empty()
    }) + exit_digits
}

/// The grammar walk of a canonical fail line over its component positions:
/// `p1` the name-ending colon, `[p2, p3)` the pid digits, `[p4, p5)` the
/// uptime digits, and `[ds, de)` the exit digits, `de` the line's end.
#[verifier::rlimit(100)]
proof fn lemma_fail_walk(
    t: Seq<char>,
    p1: int,
    p2: int,
    p3: int,
    p4: int,
    p5: int,
    e0: int,
    ds: int,
    de: int,
    negative_exit: bool,
)
    requires
        7 <= p1,
        p2 == p1 + 7,
        p2 < p3,
        p4 == p3 + 2,
        p4 < p5,
        e0 == p5 + 8,
        ds == e0 + (if negative_exit {
            1int
        } else {
            0int
        }),
        ds < de == t.len(),
        t[0] == 'f' && t[1] == 'a' && t[2] == 'i' && t[3] == 'l' && t[4] == ':' && t[5] == ' ',
        forall|k: int| 6 <= k < p1 ==> t[k] != ':',
        t[p1] == ':' && t[p1 + 1] == ' ',
        t[p1 + 2] == '(' && t[p1 + 3] == 'p' && t[p1 + 4] == 'i' && t[p1 + 5] == 'd',
        t[p1 + 6] == ' ',
        forall|k: int| p2 <= k < p3 ==> is_digit_char(#[trigger] t[k]),
        t[p3] == ')' && t[p3 + 1] == ' ',
        forall|k: int| p4 <= k < p5 ==> is_digit_char(#[trigger] t[k]),
        t[p5] == 's' && t[p5 + 1] == ',' && t[p5 + 2] == ' ',
        t[p5 + 3] == 'e' && t[p5 + 4] == 'x' && t[p5 + 5] == 'i' && t[p5 + 6] == 't',
        t[p5 + 7] == ' ',
        negative_exit ==> t[e0] == '-',
        forall|k: int| ds <= k < de ==> is_digit_char(#[trigger] t[k]),
    ensures
        fail_line_fields(t) == (match crate::state::exit_value(
            negative_exit,
            digits_val(t.subrange(ds, de)),
        ) {
            Some(e) => Some((digits_val(t.subrange(p2, p3)), digits_val(t.subrange(p4, p5)), e)),
            None => None,
        }),
{
    lemma_find_char_exact(t, 6, p1, ':');
    assert(name_end(t, 5) == Some(p1));
    lemma_skip_spaces_exact(t, p1 + 1, p1 + 2);
    assert(is_digit_char(t[p2]));
    lemma_skip_spaces_exact(t, p1 + 6, p2);
    lemma_end_of_digits_exact(t, p2, p3);
    assert(is_digit_char(t[p4]));
    lemma_skip_spaces_exact(t, p3 + 1, p4);
    lemma_end_of_digits_exact(t, p4, p5);
    assert(parse_pid_uptime(t, p1 + 1) == Some(
        (digits_val(t.subrange(p2, p3)), digits_val(t.subrange(p4, p5)), p5),
    ));
    lemma_skip_spaces_exact(t, p5 + 2, p5 + 3);
    assert(t[e0] != ' ');
    lemma_skip_spaces_exact(t, p5 + 7, e0);
    assert(is_digit_char(t[ds]));
    lemma_end_of_digits_exact(t, ds, de);
}

/// A `fail: NAME: (pid P) Us, exit C` line parses to `Failed` with that
/// pid, uptime and exit code, for every code an `i32` can carry.
#[verifier::rlimit(100)]
pub proof fn lemma_fail_line_parses(
    name: Seq<char>,
    pid_digits: Seq<char>,
    up_digits: Seq<char>,
    negative_exit: bool,
    exit_digits: Seq<char>,
)
    requires
        grammar_name(name),
        pid_digits.len() > 0,
        all_digits(pid_digits),
        digits_val(pid_digits) <= u32::MAX,
        up_digits.len() > 0,
        all_digits(up_digits),
        digits_val(up_digits) <= u64::MAX,
        exit_digits.len() > 0,
        all_digits(exit_digits),
        negative_exit ==> digits_val(exit_digits) <= 0x8000_0000,
        !negative_exit ==> digits_val(exit_digits) <= 0x7fff_ffff,
    ensures
        spec_from_sv_status(
            fail_status_line(name, pid_digits, up_digits, negative_exit, exit_digits),
        ) == (StateView::Failed {
            pid: digits_val(pid_digits) as u32,
            uptime_seconds: digits_val(up_digits) as u64,
            exit_code: (if negative_exit {
                -(digits_val(exit_digits) as int)
            } else {
                digits_val(exit_digits) as int
            }) as i32,
        }),
{
    reveal_strlit("fail: ");
    reveal_strlit(": (pid ");
    reveal_strlit(") ");
    reveal_strlit("s, exit ");
    reveal_strlit("-");
    let t = fail_status_line(name, pid_digits, up_digits, negative_exit, exit_digits);
    let p1 = 6 + name.len() as int;
    let p2 = p1 + 7;
    let p3 = p2 + pid_digits.len() as int;
    let p4 = p3 + 2;
    let p5 = p4 + up_digits.len() as int;
    let sign_len: int = if negative_exit {
        1
    } else {
        0
    };
    let e0 = p5 + 8;
    let ds = e0 + sign_len;
    let de = ds + exit_digits.len() as int;
    assert("fail: "@.len() == 6);
    assert(": (pid "@.len() == 7);
    assert(") "@.len() == 2);
    assert("s, exit "@.len() == 8);
    assert("-"@.len() == 1);
    assert(t.len() == de);
    assert(forall|k: int| 0 <= k < 6 ==> t[k] == "fail: "@[k]);
    assert(forall|k: int| 6 <= k < p1 ==> t[k] == name[k - 6]);
    assert(forall|k: int| p1 <= k < p2 ==> t[k] == ": (pid "@[k - p1]);
    assert(forall|k: int| p2 <= k < p3 ==> t[k] == pid_digits[k - p2]);
    assert(forall|k: int| p3 <= k < p4 ==> t[k] == ") "@[k - p3]);
    assert(forall|k: int| p4 <= k < p5 ==> t[k] == up_digits[k - p4]);
    assert(forall|k: int| p5 <= k < e0 ==> t[k] == "s, exit "@[k - p5]);
    assert(negative_exit ==> t[e0] == '-');
    assert(forall|k: int| ds <= k < de ==> t[k] == exit_digits[k - ds]);

    assert forall|k: int| 0 <= k < t.len() implies t[k] != '\n' by {
        if p2 <= k < p3 {
            assert(is_digit_char(pid_digits[k - p2]));
        }
        if p4 <= k < p5 {
            assert(is_digit_char(up_digits[k - p4]));
        }
        if ds <= k < de {
            assert(is_digit_char(exit_digits[k - ds]));
        }
    }
    lemma_find_char_exact(t, 0, t.len() as int, '\n');
    assert(is_digit_char(t[de - 1]));
    assert(first_line_trimmed(t) =~= t);

    assert(run_line_fields(t) is None);
    assert(down_line_fields(t) is None);

    assert(forall|k: int| 6 <= k < p1 ==> t[k] != ':');
    assert(t[p1] == ':' && t[p1 + 1] == ' ');
    assert(t[p1 + 2] == '(' && t[p1 + 3] == 'p' && t[p1 + 4] == 'i' && t[p1 + 5] == 'd');
    assert(t[p1 + 6] == ' ');
    assert(t[p3] == ')' && t[p3 + 1] == ' ');
    assert(t[p5] == 's' && t[p5 + 1] == ',' && t[p5 + 2] == ' ');
    assert(t[p5 + 3] == 'e' && t[p5 + 4] == 'x' && t[p5 + 5] == 'i' && t[p5 + 6] == 't');
    assert(t[p5 + 7] == ' ');
    lemma_fail_walk(t, p1, p2, p3, p4, p5, e0, ds, de, negative_exit);
    assert(t.subrange(p2, p3) =~= pid_digits);
    assert(t.subrange(p4, p5) =~= up_digits);
    assert(t.subrange(ds, de) =~= exit_digits);
    assert(fail_line_fields(t) == Some(
        (
            digits_val(pid_digits),
            digits_val(up_digits),
            if negative_exit {
                -(digits_val(exit_digits) as int)
            } else {
                digits_val(exit_digits) as int
            },
        ),
    ));
}

/// Any input whose trimmed first line matches none of the three grammars
/// classifies to `Unknown` carrying exactly that line.
pub proof fn lemma_unmatched_input_is_unknown(raw: Seq<char>)
    requires
        (run_line_fields(first_line_trimmed(raw)) is None),
        (down_line_fields(first_line_trimmed(raw)) is None),
        (fail_line_fields(first_line_trimmed(raw)) is None),
    ensures
        spec_from_sv_status(raw) == (StateView::Unknown { raw: first_line_trimmed(raw) }),
{
}

/// A well-formed line of one grammar matches no other: the three prefixes
/// exclude each other.
pub proof fn lemma_grammars_mutually_exclusive(t: Seq<char>)
    ensures
        run_line_fields(t) is Some ==> (down_line_fields(t) is None && fail_line_fields(t) is None),
        down_line_fields(t) is Some ==> (run_line_fields(t) is None && fail_line_fields(t) is None),
        fail_line_fields(t) is Some ==> (run_line_fields(t) is None && down_line_fields(t) is None),
{
}

} // verus!
