//! The wire grammar of the message envelopes, as mathematics: encoding
//! functions from message views to character sequences, and parsing
//! functions back. The executable encoder and decoder are proved against
//! these functions, and the round-trip laws are proved about them.
//!
//! The format is a self-describing text serialization that keeps variant
//! tags and named fields:
//!
//! ```text
//! request   := "Authenticate(username:" str ",password:" str ")"
//!            | "CreateUser(username:" str ",password:" str ")"
//!            | "GetTestsAndCompletions(user_id:" str ")"
//! response  := "AuthenticationResponse(" result-user ")"
//!            | "TestsAndCompletionsForUser(" result-list ")"
//! result    := "Ok(" payload ")" | "Err(" error ")"
//! str       := '"' (any char, with '"' and '\' escaped by '\') '"'
//! int       := "-"? digit+
//! ```
//!
//! Structs are written as `(field:value,...)`, options as `None` or
//! `Some(value)`, lists as `[value,...]`.

use vstd::prelude::*;
use crate::error::{DieselErrorV, ErrorV};
use crate::protocol::{
    CompletionDataV, Date, ClientToServerMsgV, ServerToClientMsgV, TestAndCompletionsV, TestDataV,
    UserV,
};

verus! {

// ===== encoding =====

/// A character as it appears inside a quoted string: quotes and backslashes
/// get a backslash in front.
pub open spec fn esc_char(c: char) -> Seq<char> {
    if c == '"' || c == '\\' {
        seq!['\\', c]
    } else {
        seq![c]
    }
}

/// A character sequence as it appears inside a quoted string.
pub open spec fn esc(s: Seq<char>) -> Seq<char>
    decreases s.len(),
{
    if s.len() == 0 {
        Seq::empty()
    } else {
        esc_char(s[0]) + esc(s.drop_first())
    }
}

/// A quoted, escaped string.
pub open spec fn enc_str(s: Seq<char>) -> Seq<char> {
    seq!['"'] + esc(s) + seq!['"']
}

/// The decimal digit character for `d`.
pub open spec fn char_of_digit(d: int) -> char {
    if d == 0 {
        '0'
    } else if d == 1 {
        '1'
    } else if d == 2 {
        '2'
    } else if d == 3 {
        '3'
    } else if d == 4 {
        '4'
    } else if d == 5 {
        '5'
    } else if d == 6 {
        '6'
    } else if d == 7 {
        '7'
    } else if d == 8 {
        '8'
    } else {
        '9'
    }
}

/// The decimal digits of `n`, most significant first; empty for zero.
pub open spec fn dec_digits(n: nat) -> Seq<char>
    decreases n,
{
    if n == 0 {
        Seq::empty()
    } else {
        dec_digits(n / 10) + seq![char_of_digit((n % 10) as int)]
    }
}

/// The canonical decimal writing of `n`.
pub open spec fn enc_nat(n: nat) -> Seq<char> {
    if n == 0 {
        seq!['0']
    } else {
        dec_digits(n)
    }
}

/// The canonical decimal writing of `n`, with a minus sign when negative.
pub open spec fn enc_i32(n: i32) -> Seq<char> {
    if n < 0 {
        seq!['-'] + enc_nat((-(n as int)) as nat)
    } else {
        enc_nat(n as nat)
    }
}

/// An optional string.
pub open spec fn enc_opt_str(o: Option<Seq<char>>) -> Seq<char> {
    match o {
        None => "None"@,
        Some(s) => "Some("@ + enc_str(s) + ")"@,
    }
}

/// A calendar date.
pub open spec fn enc_date(d: Date) -> Seq<char> {
    "(year:"@ + enc_i32(d.year) + ",month:"@ + enc_i32(d.month) + ",day:"@ + enc_i32(d.day) + ")"@
}

/// An optional calendar date.
pub open spec fn enc_opt_date(o: Option<Date>) -> Seq<char> {
    match o {
        None => "None"@,
        Some(d) => "Some("@ + enc_date(d) + ")"@,
    }
}

/// A user record.
pub open spec fn enc_user(u: UserV) -> Seq<char> {
    "(id:"@ + enc_str(u.id) + ",username:"@ + enc_str(u.username) + ")"@
}

/// A database-layer error.
pub open spec fn enc_dberr(e: DieselErrorV) -> Seq<char> {
    match e {
        DieselErrorV::NotFound => "NotFound"@,
        DieselErrorV::UniqueViolation(m, d, h) => "UniqueViolation("@ + enc_str(m) + ","@
            + enc_opt_str(d) + ","@ + enc_opt_str(h) + ")"@,
        DieselErrorV::Other(m) => "Other("@ + enc_str(m) + ")"@,
    }
}

/// A business error.
pub open spec fn enc_error(e: ErrorV) -> Seq<char> {
    match e {
        ErrorV::DatabaseError(d) => "DatabaseError("@ + enc_dberr(d) + ")"@,
        ErrorV::InvalidPassword => "InvalidPassword"@,
        ErrorV::HashingError(m) => "HashingError("@ + enc_str(m) + ")"@,
    }
}

/// A completion record.
pub open spec fn enc_completion(c: CompletionDataV) -> Seq<char> {
    "(achieved_mark:"@ + enc_i32(c.achieved_mark) + ",total_marks:"@ + enc_i32(c.total_marks)
        + ",date:"@ + enc_opt_date(c.date) + ",comments:"@ + enc_opt_str(c.comments) + ")"@
}

/// A test record.
pub open spec fn enc_testdata(t: TestDataV) -> Seq<char> {
    "(subject:"@ + enc_str(t.subject) + ",topic:"@ + enc_opt_str(t.topic) + ",date_or_id:"@
        + enc_str(t.date_or_id) + ",qualification_level:"@ + enc_opt_str(t.qualification_level)
        + ",exam_board:"@ + enc_opt_str(t.exam_board) + ",paper_link:"@ + enc_opt_str(t.paper_link)
        + ",mark_scheme_link:"@ + enc_opt_str(t.mark_scheme_link) + ",comments:"@ + enc_opt_str(
        t.comments,
    ) + ")"@
}

/// The elements of a completion list after the first, each with its leading
/// comma, and the closing bracket.
pub open spec fn enc_completions_tail(cs: Seq<CompletionDataV>) -> Seq<char>
    decreases cs.len(),
{
    if cs.len() == 0 {
        "]"@
    } else {
        ","@ + enc_completion(cs[0]) + enc_completions_tail(cs.drop_first())
    }
}

/// A list of completions.
pub open spec fn enc_completions(cs: Seq<CompletionDataV>) -> Seq<char> {
    if cs.len() == 0 {
        "[]"@
    } else {
        "["@ + enc_completion(cs[0]) + enc_completions_tail(cs.drop_first())
    }
}

/// A test paired with its completions.
pub open spec fn enc_tac(t: TestAndCompletionsV) -> Seq<char> {
    "("@ + enc_testdata(t.0) + ","@ + enc_completions(t.1) + ")"@
}

/// The elements of a test-and-completions list after the first, each with
/// its leading comma, and the closing bracket.
pub open spec fn enc_tacs_tail(ts: Seq<TestAndCompletionsV>) -> Seq<char>
    decreases ts.len(),
{
    if ts.len() == 0 {
        "]"@
    } else {
        ","@ + enc_tac(ts[0]) + enc_tacs_tail(ts.drop_first())
    }
}

/// A list of tests, each with its completions.
pub open spec fn enc_tacs(ts: Seq<TestAndCompletionsV>) -> Seq<char> {
    if ts.len() == 0 {
        "[]"@
    } else {
        "["@ + enc_tac(ts[0]) + enc_tacs_tail(ts.drop_first())
    }
}

/// The result carried by an authentication response.
pub open spec fn enc_result_user(r: Result<UserV, ErrorV>) -> Seq<char> {
    match r {
        Ok(u) => "Ok("@ + enc_user(u) + ")"@,
        Err(e) => "Err("@ + enc_error(e) + ")"@,
    }
}

/// The result carried by a tests-and-completions response.
pub open spec fn enc_result_tacs(r: Result<Seq<TestAndCompletionsV>, ErrorV>) -> Seq<char> {
    match r {
        Ok(ts) => "Ok("@ + enc_tacs(ts) + ")"@,
        Err(e) => "Err("@ + enc_error(e) + ")"@,
    }
}

/// A request envelope.
pub open spec fn enc_c2s(m: ClientToServerMsgV) -> Seq<char> {
    match m {
        ClientToServerMsgV::Authenticate { username, password } => "Authenticate(username:"@
            + enc_str(username) + ",password:"@ + enc_str(password) + ")"@,
        ClientToServerMsgV::CreateUser { username, password } => "CreateUser(username:"@ + enc_str(
            username,
        ) + ",password:"@ + enc_str(password) + ")"@,
        ClientToServerMsgV::GetTestsAndCompletions { user_id } => "GetTestsAndCompletions(user_id:"@
            + enc_str(user_id) + ")"@,
    }
}

/// A response envelope.
pub open spec fn enc_s2c(m: ServerToClientMsgV) -> Seq<char> {
    match m {
        ServerToClientMsgV::AuthenticationResponse(r) => "AuthenticationResponse("@
            + enc_result_user(r) + ")"@,
        ServerToClientMsgV::TestsAndCompletionsForUser(r) => "TestsAndCompletionsForUser("@
            + enc_result_tacs(r) + ")"@,
    }
}

// ===== parsing =====
//
// Each parsing function takes the whole text and a start position, and
// yields the parsed value with the position just after it, or nothing.

/// Expect the literal `lit` at position `i`.
pub open spec fn parse_lit(s: Seq<char>, i: int, lit: Seq<char>) -> Option<int> {
    if 0 <= i && i + lit.len() <= s.len() && s.subrange(i, i + lit.len()) == lit {
        Some(i + lit.len())
    } else {
        None
    }
}

/// The contents of a quoted string from position `i` (just inside the
/// opening quote) up to the closing quote.
pub open spec fn parse_str_body(s: Seq<char>, i: int) -> Option<(Seq<char>, int)>
    decreases s.len() - i,
{
    if i < 0 || i >= s.len() {
        None
    } else if s[i] == '"' {
        Some((Seq::empty(), i + 1))
    } else if s[i] == '\\' {
        if i + 1 < s.len() {
            match parse_str_body(s, i + 2) {
                None => None,
                Some((t, j)) => Some((seq![s[i + 1]] + t, j)),
            }
        } else {
            None
        }
    } else {
        match parse_str_body(s, i + 1) {
            None => None,
            Some((t, j)) => Some((seq![s[i]] + t, j)),
        }
    }
}

/// A quoted string at position `i`.
pub open spec fn parse_str(s: Seq<char>, i: int) -> Option<(Seq<char>, int)> {
    if 0 <= i && i < s.len() && s[i] == '"' {
        parse_str_body(s, i + 1)
    } else {
        None
    }
}

/// A decimal digit.
pub open spec fn is_digit(c: char) -> bool {
    48 <= c as int && c as int <= 57
}

/// The value of a decimal digit.
pub open spec fn digit_val(c: char) -> int {
    c as int - 48
}

/// The position just after the run of digits that starts at `i`.
pub open spec fn digit_run_end(s: Seq<char>, i: int) -> int
    decreases s.len() - i,
{
    if i < 0 || i >= s.len() || !is_digit(s[i]) {
        i
    } else {
        digit_run_end(s, i + 1)
    }
}

/// The value of a sequence of decimal digits, most significant first.
pub open spec fn val_of_digits(ds: Seq<char>) -> int
    decreases ds.len(),
{
    if ds.len() == 0 {
        0
    } else {
        val_of_digits(ds.drop_last()) * 10 + digit_val(ds.last())
    }
}

/// An unsigned decimal number at position `i`: the maximal digit run.
pub open spec fn parse_nat(s: Seq<char>, i: int) -> Option<(int, int)> {
    let j = digit_run_end(s, i);
    if 0 <= i && j > i {
        Some((val_of_digits(s.subrange(i, j)), j))
    } else {
        None
    }
}

/// A signed decimal number at position `i`, within the 32-bit range.
pub open spec fn parse_i32(s: Seq<char>, i: int) -> Option<(i32, int)> {
    if 0 <= i && i < s.len() && s[i] == '-' {
        match parse_nat(s, i + 1) {
            None => None,
            Some((v, j)) => if v <= 0x8000_0000 {
                Some(((-v) as i32, j))
            } else {
                None
            },
        }
    } else {
        match parse_nat(s, i) {
            None => None,
            Some((v, j)) => if v <= 0x7fff_ffff {
                Some((v as i32, j))
            } else {
                None
            },
        }
    }
}

/// An optional string.
pub open spec fn parse_opt_str(s: Seq<char>, i: int) -> Option<(Option<Seq<char>>, int)> {
    match parse_lit(s, i, "None"@) {
        Some(j) => Some((None, j)),
        None => match parse_lit(s, i, "Some("@) {
            None => None,
            Some(i1) => match parse_str(s, i1) {
                None => None,
                Some((t, i2)) => match parse_lit(s, i2, ")"@) {
                    None => None,
                    Some(i3) => Some((Some(t), i3)),
                },
            },
        },
    }
}

/// A calendar date; only well-formed dates parse.
pub open spec fn parse_date(s: Seq<char>, i: int) -> Option<(Date, int)> {
    match parse_lit(s, i, "(year:"@) {
        None => None,
        Some(i1) => match parse_i32(s, i1) {
            None => None,
            Some((y, i2)) => match parse_lit(s, i2, ",month:"@) {
                None => None,
                Some(i3) => match parse_i32(s, i3) {
                    None => None,
                    Some((m, i4)) => match parse_lit(s, i4, ",day:"@) {
                        None => None,
                        Some(i5) => match parse_i32(s, i5) {
                            None => None,
                            Some((d, i6)) => match parse_lit(s, i6, ")"@) {
                                None => None,
                                Some(i7) => {
                                    let date = Date { year: y, month: m, day: d };
                                    if date.wf() {
                                        Some((date, i7))
                                    } else {
                                        None
                                    }
                                },
                            },
                        },
                    },
                },
            },
        },
    }
}

/// An optional calendar date.
pub open spec fn parse_opt_date(s: Seq<char>, i: int) -> Option<(Option<Date>, int)> {
    match parse_lit(s, i, "None"@) {
        Some(j) => Some((None, j)),
        None => match parse_lit(s, i, "Some("@) {
            None => None,
            Some(i1) => match parse_date(s, i1) {
                None => None,
                Some((d, i2)) => match parse_lit(s, i2, ")"@) {
                    None => None,
                    Some(i3) => Some((Some(d), i3)),
                },
            },
        },
    }
}

/// A user record.
pub open spec fn parse_user(s: Seq<char>, i: int) -> Option<(UserV, int)> {
    match parse_lit(s, i, "(id:"@) {
        None => None,
        Some(i1) => match parse_str(s, i1) {
            None => None,
            Some((id, i2)) => match parse_lit(s, i2, ",username:"@) {
                None => None,
                Some(i3) => match parse_str(s, i3) {
                    None => None,
                    Some((username, i4)) => match parse_lit(s, i4, ")"@) {
                        None => None,
                        Some(i5) => Some((UserV { id, username }, i5)),
                    },
                },
            },
        },
    }
}

/// A database-layer error.
pub open spec fn parse_dberr(s: Seq<char>, i: int) -> Option<(DieselErrorV, int)> {
    match parse_lit(s, i, "NotFound"@) {
        Some(j) => Some((DieselErrorV::NotFound, j)),
        None => match parse_lit(s, i, "UniqueViolation("@) {
            Some(i1) => match parse_str(s, i1) {
                None => None,
                Some((m, i2)) => match parse_lit(s, i2, ","@) {
                    None => None,
                    Some(i3) => match parse_opt_str(s, i3) {
                        None => None,
                        Some((d, i4)) => match parse_lit(s, i4, ","@) {
                            None => None,
                            Some(i5) => match parse_opt_str(s, i5) {
                                None => None,
                                Some((h, i6)) => match parse_lit(s, i6, ")"@) {
                                    None => None,
                                    Some(i7) => Some(
                                        (DieselErrorV::UniqueViolation(m, d, h), i7),
                                    ),
                                },
                            },
                        },
                    },
                },
            },
            None => match parse_lit(s, i, "Other("@) {
                None => None,
                Some(i1) => match parse_str(s, i1) {
                    None => None,
                    Some((m, i2)) => match parse_lit(s, i2, ")"@) {
                        None => None,
                        Some(i3) => Some((DieselErrorV::Other(m), i3)),
                    },
                },
            },
        },
    }
}

/// A business error.
pub open spec fn parse_error(s: Seq<char>, i: int) -> Option<(ErrorV, int)> {
    match parse_lit(s, i, "DatabaseError("@) {
        Some(i1) => match parse_dberr(s, i1) {
            None => None,
            Some((d, i2)) => match parse_lit(s, i2, ")"@) {
                None => None,
                Some(i3) => Some((ErrorV::DatabaseError(d), i3)),
            },
        },
        None => match parse_lit(s, i, "InvalidPassword"@) {
            Some(j) => Some((ErrorV::InvalidPassword, j)),
            None => match parse_lit(s, i, "HashingError("@) {
                None => None,
                Some(i1) => match parse_str(s, i1) {
                    None => None,
                    Some((m, i2)) => match parse_lit(s, i2, ")"@) {
                        None => None,
                        Some(i3) => Some((ErrorV::HashingError(m), i3)),
                    },
                },
            },
        },
    }
}

/// A completion record.
#[verifier::opaque]
pub open spec fn parse_completion(s: Seq<char>, i: int) -> Option<(CompletionDataV, int)> {
    match parse_lit(s, i, "(achieved_mark:"@) {
        None => None,
        Some(i1) => match parse_i32(s, i1) {
            None => None,
            Some((am, i2)) => match parse_lit(s, i2, ",total_marks:"@) {
                None => None,
                Some(i3) => match parse_i32(s, i3) {
                    None => None,
                    Some((tm, i4)) => match parse_lit(s, i4, ",date:"@) {
                        None => None,
                        Some(i5) => match parse_opt_date(s, i5) {
                            None => None,
                            Some((d, i6)) => match parse_lit(s, i6, ",comments:"@) {
                                None => None,
                                Some(i7) => match parse_opt_str(s, i7) {
                                    None => None,
                                    Some((c, i8)) => match parse_lit(s, i8, ")"@) {
                                        None => None,
                                        Some(i9) => Some(
                                            (
                                                CompletionDataV {
                                                    achieved_mark: am,
                                                    total_marks: tm,
                                                    date: d,
                                                    comments: c,
                                                },
                                                i9,
                                            ),
                                        ),
                                    },
                                },
                            },
                        },
                    },
                },
            },
        },
    }
}

/// A test record.
#[verifier::opaque]
pub open spec fn parse_testdata(s: Seq<char>, i: int) -> Option<(TestDataV, int)> {
    match parse_lit(s, i, "(subject:"@) {
        None => None,
        Some(i1) => match parse_str(s, i1) {
            None => None,
            Some((subject, i2)) => match parse_lit(s, i2, ",topic:"@) {
                None => None,
                Some(i3) => match parse_opt_str(s, i3) {
                    None => None,
                    Some((topic, i4)) => match parse_lit(s, i4, ",date_or_id:"@) {
                        None => None,
                        Some(i5) => match parse_str(s, i5) {
                            None => None,
                            Some((date_or_id, i6)) => match parse_lit(
                                s,
                                i6,
                                ",qualification_level:"@,
                            ) {
                                None => None,
                                Some(i7) => match parse_opt_str(s, i7) {
                                    None => None,
                                    Some((ql, i8)) => match parse_lit(s, i8, ",exam_board:"@) {
                                        None => None,
                                        Some(i9) => match parse_opt_str(s, i9) {
                                            None => None,
                                            Some((eb, i10)) => match parse_lit(
                                                s,
                                                i10,
                                                ",paper_link:"@,
                                            ) {
                                                None => None,
                                                Some(i11) => match parse_opt_str(s, i11) {
                                                    None => None,
                                                    Some((pl, i12)) => match parse_lit(
                                                        s,
                                                        i12,
                                                        ",mark_scheme_link:"@,
                                                    ) {
                                                        None => None,
                                                        Some(i13) => match parse_opt_str(s, i13) {
                                                            None => None,
                                                            Some((msl, i14)) => match parse_lit(
                                                                s,
                                                                i14,
                                                                ",comments:"@,
                                                            ) {
                                                                None => None,
                                                                Some(i15) => match parse_opt_str(
                                                                    s,
                                                                    i15,
                                                                ) {
                                                                    None => None,
                                                                    Some((cm, i16)) => match parse_lit(
                                                                        s,
                                                                        i16,
                                                                        ")"@,
                                                                    ) {
                                                                        None => None,
                                                                        Some(i17) => Some(
                                                                            (
                                                                                TestDataV {
                                                                                    subject,
                                                                                    topic,
                                                                                    date_or_id,
                                                                                    qualification_level: ql,
                                                                                    exam_board: eb,
                                                                                    paper_link: pl,
                                                                                    mark_scheme_link: msl,
                                                                                    comments: cm,
                                                                                },
                                                                                i17,
                                                                            ),
                                                                        ),
                                                                    },
                                                                },
                                                            },
                                                        },
                                                    },
                                                },
                                            },
                                        },
                                    },
                                },
                            },
                        },
                    },
                },
            },
        },
    }
}

/// The elements of a completion list after the first, and the closing
/// bracket.
pub open spec fn parse_completions_tail(s: Seq<char>, i: int) -> Option<
    (Seq<CompletionDataV>, int),
>
    decreases s.len() - i,
{
    match parse_lit(s, i, "]"@) {
        Some(j) => Some((Seq::empty(), j)),
        None => match parse_lit(s, i, ","@) {
            None => None,
            Some(i1) => match parse_completion(s, i1) {
                None => None,
                Some((c, i2)) => if i1 < i2 && i2 <= s.len() {
                    match parse_completions_tail(s, i2) {
                        None => None,
                        Some((cs, i3)) => Some((seq![c] + cs, i3)),
                    }
                } else {
                    None
                },
            },
        },
    }
}

/// A list of completions.
pub open spec fn parse_completions(s: Seq<char>, i: int) -> Option<(Seq<CompletionDataV>, int)> {
    match parse_lit(s, i, "[]"@) {
        Some(j) => Some((Seq::empty(), j)),
        None => match parse_lit(s, i, "["@) {
            None => None,
            Some(i1) => match parse_completion(s, i1) {
                None => None,
                Some((c, i2)) => if i1 < i2 && i2 <= s.len() {
                    match parse_completions_tail(s, i2) {
                        None => None,
                        Some((cs, i3)) => Some((seq![c] + cs, i3)),
                    }
                } else {
                    None
                },
            },
        },
    }
}

/// A test paired with its completions.
pub open spec fn parse_tac(s: Seq<char>, i: int) -> Option<(TestAndCompletionsV, int)> {
    match parse_lit(s, i, "("@) {
        None => None,
        Some(i1) => match parse_testdata(s, i1) {
            None => None,
            Some((t, i2)) => match parse_lit(s, i2, ","@) {
                None => None,
                Some(i3) => match parse_completions(s, i3) {
                    None => None,
                    Some((cs, i4)) => match parse_lit(s, i4, ")"@) {
                        None => None,
                        Some(i5) => Some(((t, cs), i5)),
                    },
                },
            },
        },
    }
}

/// The elements of a test-and-completions list after the first, and the
/// closing bracket.
pub open spec fn parse_tacs_tail(s: Seq<char>, i: int) -> Option<(Seq<TestAndCompletionsV>, int)>
    decreases s.len() - i,
{
    match parse_lit(s, i, "]"@) {
        Some(j) => Some((Seq::empty(), j)),
        None => match parse_lit(s, i, ","@) {
            None => None,
            Some(i1) => match parse_tac(s, i1) {
                None => None,
                Some((t, i2)) => if i1 < i2 && i2 <= s.len() {
                    match parse_tacs_tail(s, i2) {
                        None => None,
                        Some((ts, i3)) => Some((seq![t] + ts, i3)),
                    }
                } else {
                    None
                },
            },
        },
    }
}

/// A list of tests, each with its completions.
pub open spec fn parse_tacs(s: Seq<char>, i: int) -> Option<(Seq<TestAndCompletionsV>, int)> {
    match parse_lit(s, i, "[]"@) {
        Some(j) => Some((Seq::empty(), j)),
        None => match parse_lit(s, i, "["@) {
            None => None,
            Some(i1) => match parse_tac(s, i1) {
                None => None,
                Some((t, i2)) => if i1 < i2 && i2 <= s.len() {
                    match parse_tacs_tail(s, i2) {
                        None => None,
                        Some((ts, i3)) => Some((seq![t] + ts, i3)),
                    }
                } else {
                    None
                },
            },
        },
    }
}

/// The result carried by an authentication response.
pub open spec fn parse_result_user(s: Seq<char>, i: int) -> Option<(Result<UserV, ErrorV>, int)> {
    match parse_lit(s, i, "Ok("@) {
        Some(i1) => match parse_user(s, i1) {
            None => None,
            Some((u, i2)) => match parse_lit(s, i2, ")"@) {
                None => None,
                Some(i3) => Some((Ok(u), i3)),
            },
        },
        None => match parse_lit(s, i, "Err("@) {
            None => None,
            Some(i1) => match parse_error(s, i1) {
                None => None,
                Some((e, i2)) => match parse_lit(s, i2, ")"@) {
                    None => None,
                    Some(i3) => Some((Err(e), i3)),
                },
            },
        },
    }
}

/// The result carried by a tests-and-completions response.
pub open spec fn parse_result_tacs(s: Seq<char>, i: int) -> Option<
    (Result<Seq<TestAndCompletionsV>, ErrorV>, int),
> {
    match parse_lit(s, i, "Ok("@) {
        Some(i1) => match parse_tacs(s, i1) {
            None => None,
            Some((ts, i2)) => match parse_lit(s, i2, ")"@) {
                None => None,
                Some(i3) => Some((Ok(ts), i3)),
            },
        },
        None => match parse_lit(s, i, "Err("@) {
            None => None,
            Some(i1) => match parse_error(s, i1) {
                None => None,
                Some((e, i2)) => match parse_lit(s, i2, ")"@) {
                    None => None,
                    Some(i3) => Some((Err(e), i3)),
                },
            },
        },
    }
}

/// A request envelope.
pub open spec fn parse_c2s(s: Seq<char>, i: int) -> Option<(ClientToServerMsgV, int)> {
    match parse_lit(s, i, "Authenticate(username:"@) {
        Some(i1) => match parse_str(s, i1) {
            None => None,
            Some((username, i2)) => match parse_lit(s, i2, ",password:"@) {
                None => None,
                Some(i3) => match parse_str(s, i3) {
                    None => None,
                    Some((password, i4)) => match parse_lit(s, i4, ")"@) {
                        None => None,
                        Some(i5) => Some(
                            (ClientToServerMsgV::Authenticate { username, password }, i5),
                        ),
                    },
                },
            },
        },
        None => match parse_lit(s, i, "CreateUser(username:"@) {
            Some(i1) => match parse_str(s, i1) {
                None => None,
                Some((username, i2)) => match parse_lit(s, i2, ",password:"@) {
                    None => None,
                    Some(i3) => match parse_str(s, i3) {
                        None => None,
                        Some((password, i4)) => match parse_lit(s, i4, ")"@) {
                            None => None,
                            Some(i5) => Some(
                                (ClientToServerMsgV::CreateUser { username, password }, i5),
                            ),
                        },
                    },
                },
            },
            None => match parse_lit(s, i, "GetTestsAndCompletions(user_id:"@) {
                None => None,
                Some(i1) => match parse_str(s, i1) {
                    None => None,
                    Some((user_id, i2)) => match parse_lit(s, i2, ")"@) {
                        None => None,
                        Some(i3) => Some(
                            (ClientToServerMsgV::GetTestsAndCompletions { user_id }, i3),
                        ),
                    },
                },
            },
        },
    }
}

/// A response envelope.
pub open spec fn parse_s2c(s: Seq<char>, i: int) -> Option<(ServerToClientMsgV, int)> {
    match parse_lit(s, i, "AuthenticationResponse("@) {
        Some(i1) => match parse_result_user(s, i1) {
            None => None,
            Some((r, i2)) => match parse_lit(s, i2, ")"@) {
                None => None,
                Some(i3) => Some((ServerToClientMsgV::AuthenticationResponse(r), i3)),
            },
        },
        None => match parse_lit(s, i, "TestsAndCompletionsForUser("@) {
            None => None,
            Some(i1) => match parse_result_tacs(s, i1) {
                None => None,
                Some((r, i2)) => match parse_lit(s, i2, ")"@) {
                    None => None,
                    Some(i3) => Some((ServerToClientMsgV::TestsAndCompletionsForUser(r), i3)),
                },
            },
        },
    }
}

/// The user record denoted by a whole text, which must hold exactly one:
/// the form in which a logged-in user is persisted in browser storage.
pub open spec fn dec_user(s: Seq<char>) -> Option<UserV> {
    match parse_user(s, 0) {
        Some((u, j)) => if j == s.len() {
            Some(u)
        } else {
            None
        },
        None => None,
    }
}

/// The request denoted by a whole text, which must hold exactly one.
pub open spec fn dec_c2s(s: Seq<char>) -> Option<ClientToServerMsgV> {
    match parse_c2s(s, 0) {
        Some((m, j)) => if j == s.len() {
            Some(m)
        } else {
            None
        },
        None => None,
    }
}

/// The response denoted by a whole text, which must hold exactly one.
pub open spec fn dec_s2c(s: Seq<char>) -> Option<ServerToClientMsgV> {
    match parse_s2c(s, 0) {
        Some((m, j)) => if j == s.len() {
            Some(m)
        } else {
            None
        },
        None => None,
    }
}

} // verus!
