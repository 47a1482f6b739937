//! The executable decoder: reads a message envelope back from its text,
//! proved equal to the parsing functions of [`crate::codec`].

use vstd::prelude::*;
use vstd::string::StrSliceExecFns;
use crate::codec::{
    dec_c2s, dec_s2c, dec_user, digit_run_end, digit_val, is_digit, parse_c2s, parse_completion,
    parse_completions, parse_completions_tail, parse_date, parse_dberr, parse_error, parse_i32,
    parse_lit, parse_nat, parse_opt_date, parse_opt_str, parse_result_tacs, parse_result_user,
    parse_s2c, parse_str, parse_str_body, parse_tac, parse_tacs, parse_tacs_tail, parse_testdata,
    parse_user, val_of_digits,
};
use crate::error::{DieselError, Error};
use crate::protocol::{
    ClientToServerMsg, CompletionData, Date, ServerToClientMsg, TestAndCompletions, TestData, User,
    date_is_wf,
};
use crate::text::{chars_to_string, str_to_chars};

verus! {

/// Expect the literal `lit` at position `i`.
fn p_lit(s: &Vec<char>, i: usize, lit: &str) -> (r: Option<usize>)
    ensures
        r is Some <==> parse_lit(s@, i as int, lit@) is Some,
        r matches Some(j) ==> parse_lit(s@, i as int, lit@) == Some(j as int),
{
    let n = lit.unicode_len();
    let slen = s.len();
    if n > slen || i > slen - n {
        return None;
    }
    let mut t: usize = 0;
    while t < n
        invariant
            t <= n,
            n == lit@.len(),
            slen == s@.len(),
            i + n <= slen,
            forall|q: int| 0 <= q < t ==> s@[i + q] == lit@[q],
        decreases n - t,
    {
        if s[i + t] != lit.get_char(t) {
            proof {
                assert(s@.subrange(i as int, i + lit@.len())[t as int] == s@[i + t]);
            }
            return None;
        }
        t = t + 1;
    }
    proof {
        assert(s@.subrange(i as int, i + lit@.len()) =~= lit@);
    }
    Some(i + n)
}

/// The contents of a quoted string from position `i`, just inside the
/// opening quote, up to the closing quote.
fn p_str_body(s: &Vec<char>, i: usize) -> (r: Option<(Vec<char>, usize)>)
    ensures
        r is Some <==> parse_str_body(s@, i as int) is Some,
        r matches Some((t, j)) ==> parse_str_body(s@, i as int) == Some((t@, j as int)),
{
    let mut acc: Vec<char> = Vec::new();
    let mut j = i;
    loop
        invariant
            i <= j,
            (parse_str_body(s@, i as int) is Some <==> parse_str_body(s@, j as int) is Some),
            parse_str_body(s@, j as int) matches Some((t, k)) ==> parse_str_body(s@, i as int)
                == Some((acc@ + t, k)),
        decreases s@.len() - j,
    {
        if j >= s.len() {
            return None;
        }
        let c = s[j];
        if c == '"' {
            proof {
                assert(acc@ + Seq::<char>::empty() =~= acc@);
            }
            return Some((acc, j + 1));
        } else if c == '\\' {
            if j + 1 >= s.len() {
                return None;
            }
            let ghost pre = acc@;
            acc.push(s[j + 1]);
            j = j + 2;
            proof {
                assert forall|t: Seq<char>, k: int|
                    parse_str_body(s@, j as int) == Some::<(Seq<char>, int)>(
                        (t, k),
                    ) implies parse_str_body(s@, i as int) == Some::<(Seq<char>, int)>(
                    (acc@ + t, k),
                ) by {
                    assert(pre + (seq![s@[j - 1]] + t) =~= acc@ + t);
                }
            }
        } else {
            let ghost pre = acc@;
            acc.push(c);
            j = j + 1;
            proof {
                assert forall|t: Seq<char>, k: int|
                    parse_str_body(s@, j as int) == Some::<(Seq<char>, int)>(
                        (t, k),
                    ) implies parse_str_body(s@, i as int) == Some::<(Seq<char>, int)>(
                    (acc@ + t, k),
                ) by {
                    assert(pre + (seq![s@[j - 1]] + t) =~= acc@ + t);
                }
            }
        }
    }
}

/// A quoted string at position `i`.
fn p_str(s: &Vec<char>, i: usize) -> (r: Option<(String, usize)>)
    ensures
        r is Some <==> parse_str(s@, i as int) is Some,
        r matches Some((t, j)) ==> parse_str(s@, i as int) == Some((t@, j as int)),
{
    if i < s.len() && s[i] == '"' {
        match p_str_body(s, i + 1) {
            None => None,
            Some((t, j)) => Some((chars_to_string(&t), j)),
        }
    } else {
        None
    }
}

/// The code point of `c`.
fn char_code(c: char) -> (u: u32)
    ensures
        u as int == c as int,
{
    c as u32
}

/// An unsigned decimal number at position `i`. Values above `0x8000_0000`
/// come back clamped, still above that bound.
fn p_nat(s: &Vec<char>, i: usize) -> (r: Option<(u64, usize)>)
    ensures
        r is Some <==> parse_nat(s@, i as int) is Some,
        r matches Some((v, j)) ==> ({
            let p = parse_nat(s@, i as int).unwrap();
            &&& p.1 == j as int
            &&& (p.0 <= 0x8000_0000 ==> v == p.0)
            &&& (p.0 > 0x8000_0000 ==> v > 0x8000_0000)
        }),
{
    let slen = s.len();
    if i >= slen {
        return None;
    }
    let mut j = i;
    let mut acc: u64 = 0;
    proof {
        assert(s@.subrange(i as int, i as int) =~= Seq::<char>::empty());
    }
    loop
        invariant
            i <= j <= slen,
            slen == s@.len(),
            digit_run_end(s@, i as int) == digit_run_end(s@, j as int),
            forall|q: int| i <= q < j ==> is_digit(#[trigger] s@[q]),
            0 <= val_of_digits(s@.subrange(i as int, j as int)),
            ({
                let v = val_of_digits(s@.subrange(i as int, j as int));
                (v <= 0x8000_0000 && acc == v) || (v > 0x8000_0000 && acc == 0x8000_0001)
            }),
        ensures
            i <= j <= slen,
            slen == s@.len(),
            j as int == digit_run_end(s@, i as int),
            ({
                let v = val_of_digits(s@.subrange(i as int, j as int));
                (v <= 0x8000_0000 && acc == v) || (v > 0x8000_0000 && acc == 0x8000_0001)
            }),
        decreases slen - j,
    {
        if j >= slen {
            proof {
                assert(digit_run_end(s@, j as int) == j);
            }
            break ;
        }
        let c = s[j];
        let u = char_code(c);
        if u < 48 || u > 57 {
            proof {
                assert(!is_digit(s@[j as int]));
                assert(digit_run_end(s@, j as int) == j);
            }
            break ;
        }
        let d = (u - 48) as u64;
        let ghost olddigits = s@.subrange(i as int, j as int);
        proof {
            assert(is_digit(s@[j as int]));
            assert(digit_val(s@[j as int]) == d);
            let newdigits = s@.subrange(i as int, j + 1);
            assert(newdigits.drop_last() =~= olddigits);
            assert(newdigits.last() == s@[j as int]);
            assert(val_of_digits(newdigits) == val_of_digits(olddigits) * 10 + d);
        }
        if acc > 0x8000_0000 {
            acc = 0x8000_0001;
        } else {
            acc = acc * 10 + d;
            if acc > 0x8000_0000 {
                acc = 0x8000_0001;
            }
        }
        j = j + 1;
    }
    if j == i {
        return None;
    }
    Some((acc, j))
}

/// A signed decimal number at position `i`, within the 32-bit range.
fn p_i32(s: &Vec<char>, i: usize) -> (r: Option<(i32, usize)>)
    ensures
        r is Some <==> parse_i32(s@, i as int) is Some,
        r matches Some((v, j)) ==> parse_i32(s@, i as int) == Some((v, j as int)),
{
    if i < s.len() && s[i] == '-' {
        match p_nat(s, i + 1) {
            None => None,
            Some((v, j)) => {
                if v <= 0x8000_0000 {
                    let m = -(v as i64);
                    Some((m as i32, j))
                } else {
                    None
                }
            },
        }
    } else {
        match p_nat(s, i) {
            None => None,
            Some((v, j)) => {
                if v <= 0x7fff_ffff {
                    Some((v as i32, j))
                } else {
                    None
                }
            },
        }
    }
}

/// An optional string.
fn p_opt_str(s: &Vec<char>, i: usize) -> (r: Option<(Option<String>, usize)>)
    ensures
        r is Some <==> parse_opt_str(s@, i as int) is Some,
        r matches Some((o, j)) ==> parse_opt_str(s@, i as int) == Some((o.deep_view(), j as int)),
{
    match p_lit(s, i, "None") {
        Some(j) => Some((None, j)),
        None => {
            let i1 = match p_lit(s, i, "Some(") {
                None => {
                    return None;
                },
                Some(x) => x,
            };
            let (t, i2) = match p_str(s, i1) {
                None => {
                    return None;
                },
                Some(x) => x,
            };
            let i3 = match p_lit(s, i2, ")") {
                None => {
                    return None;
                },
                Some(x) => x,
            };
            Some((Some(t), i3))
        },
    }
}

/// A calendar date; only well-formed dates parse.
fn p_date(s: &Vec<char>, i: usize) -> (r: Option<(Date, usize)>)
    ensures
        r is Some <==> parse_date(s@, i as int) is Some,
        r matches Some((d, j)) ==> parse_date(s@, i as int) == Some((d, j as int)),
{
    let i1 = match p_lit(s, i, "(year:") {
        None => {
            return None;
        },
        Some(x) => x,
    };
    let (y, i2) = match p_i32(s, i1) {
        None => {
            return None;
        },
        Some(x) => x,
    };
    let i3 = match p_lit(s, i2, ",month:") {
        None => {
            return None;
        },
        Some(x) => x,
    };
    let (m, i4) = match p_i32(s, i3) {
        None => {
            return None;
        },
        Some(x) => x,
    };
    let i5 = match p_lit(s, i4, ",day:") {
        None => {
            return None;
        },
        Some(x) => x,
    };
    let (d, i6) = match p_i32(s, i5) {
        None => {
            return None;
        },
        Some(x) => x,
    };
    let i7 = match p_lit(s, i6, ")") {
        None => {
            return None;
        },
        Some(x) => x,
    };
    let date = Date { year: y, month: m, day: d };
    if date_is_wf(&date) {
        Some((date, i7))
    } else {
        None
    }
}

/// An optional calendar date.
fn p_opt_date(s: &Vec<char>, i: usize) -> (r: Option<(Option<Date>, usize)>)
    ensures
        r is Some <==> parse_opt_date(s@, i as int) is Some,
        r matches Some((o, j)) ==> parse_opt_date(s@, i as int) == Some((o, j as int)),
{
    match p_lit(s, i, "None") {
        Some(j) => Some((None, j)),
        None => {
            let i1 = match p_lit(s, i, "Some(") {
                None => {
                    return None;
                },
                Some(x) => x,
            };
            let (d, i2) = match p_date(s, i1) {
                None => {
                    return None;
                },
                Some(x) => x,
            };
            let i3 = match p_lit(s, i2, ")") {
                None => {
                    return None;
                },
                Some(x) => x,
            };
            Some((Some(d), i3))
        },
    }
}

/// A user record.
fn p_user(s: &Vec<char>, i: usize) -> (r: Option<(User, usize)>)
    ensures
        r is Some <==> parse_user(s@, i as int) is Some,
        r matches Some((u, j)) ==> parse_user(s@, i as int) == Some((u@, j as int)),
{
    let i1 = match p_lit(s, i, "(id:") {
        None => {
            return None;
        },
        Some(x) => x,
    };
    let (id, i2) = match p_str(s, i1) {
        None => {
            return None;
        },
        Some(x) => x,
    };
    let i3 = match p_lit(s, i2, ",username:") {
        None => {
            return None;
        },
        Some(x) => x,
    };
    let (username, i4) = match p_str(s, i3) {
        None => {
            return None;
        },
        Some(x) => x,
    };
    let i5 = match p_lit(s, i4, ")") {
        None => {
            return None;
        },
        Some(x) => x,
    };
    Some((User { id, username }, i5))
}

/// A database-layer error.
fn p_dberr(s: &Vec<char>, i: usize) -> (r: Option<(DieselError, usize)>)
    ensures
        r is Some <==> parse_dberr(s@, i as int) is Some,
        r matches Some((e, j)) ==> parse_dberr(s@, i as int) == Some((e@, j as int)),
{
    match p_lit(s, i, "NotFound") {
        Some(j) => Some((DieselError::NotFound, j)),
        None => {
            match p_lit(s, i, "UniqueViolation(") {
                Some(i1) => {
                    let (m, i2) = match p_str(s, i1) {
                        None => {
                            return None;
                        },
                        Some(x) => x,
                    };
                    let i3 = match p_lit(s, i2, ",") {
                        None => {
                            return None;
                        },
                        Some(x) => x,
                    };
                    let (d, i4) = match p_opt_str(s, i3) {
                        None => {
                            return None;
                        },
                        Some(x) => x,
                    };
                    let i5 = match p_lit(s, i4, ",") {
                        None => {
                            return None;
                        },
                        Some(x) => x,
                    };
                    let (h, i6) = match p_opt_str(s, i5) {
                        None => {
                            return None;
                        },
                        Some(x) => x,
                    };
                    let i7 = match p_lit(s, i6, ")") {
                        None => {
                            return None;
                        },
                        Some(x) => x,
                    };
                    Some((DieselError::UniqueViolation(m, d, h), i7))
                },
                None => {
                    let i1 = match p_lit(s, i, "Other(") {
                        None => {
                            return None;
                        },
                        Some(x) => x,
                    };
                    let (m, i2) = match p_str(s, i1) {
                        None => {
                            return None;
                        },
                        Some(x) => x,
                    };
                    let i3 = match p_lit(s, i2, ")") {
                        None => {
                            return None;
                        },
                        Some(x) => x,
                    };
                    Some((DieselError::Other(m), i3))
                },
            }
        },
    }
}

/// A business error.
fn p_error(s: &Vec<char>, i: usize) -> (r: Option<(Error, usize)>)
    ensures
        r is Some <==> parse_error(s@, i as int) is Some,
        r matches Some((e, j)) ==> parse_error(s@, i as int) == Some((e@, j as int)),
{
    match p_lit(s, i, "DatabaseError(") {
        Some(i1) => {
            let (d, i2) = match p_dberr(s, i1) {
                None => {
                    return None;
                },
                Some(x) => x,
            };
            let i3 = match p_lit(s, i2, ")") {
                None => {
                    return None;
                },
                Some(x) => x,
            };
            Some((Error::DatabaseError(d), i3))
        },
        None => {
            match p_lit(s, i, "InvalidPassword") {
                Some(j) => Some((Error::InvalidPassword, j)),
                None => {
                    let i1 = match p_lit(s, i, "HashingError(") {
                        None => {
                            return None;
                        },
                        Some(x) => x,
                    };
                    let (m, i2) = match p_str(s, i1) {
                        None => {
                            return None;
                        },
                        Some(x) => x,
                    };
                    let i3 = match p_lit(s, i2, ")") {
                        None => {
                            return None;
                        },
                        Some(x) => x,
                    };
                    Some((Error::HashingError(m), i3))
                },
            }
        },
    }
}

/// A completion record.
fn p_completion(s: &Vec<char>, i: usize) -> (r: Option<(CompletionData, usize)>)
    ensures
        r is Some <==> parse_completion(s@, i as int) is Some,
        r matches Some((c, j)) ==> parse_completion(s@, i as int) == Some((c@, j as int)),
{
    proof {
        reveal(parse_completion);
    }
    let i1 = match p_lit(s, i, "(achieved_mark:") {
        None => {
            return None;
        },
        Some(x) => x,
    };
    let (am, i2) = match p_i32(s, i1) {
        None => {
            return None;
        },
        Some(x) => x,
    };
    let i3 = match p_lit(s, i2, ",total_marks:") {
        None => {
            return None;
        },
        Some(x) => x,
    };
    let (tm, i4) = match p_i32(s, i3) {
        None => {
            return None;
        },
        Some(x) => x,
    };
    let i5 = match p_lit(s, i4, ",date:") {
        None => {
            return None;
        },
        Some(x) => x,
    };
    let (d, i6) = match p_opt_date(s, i5) {
        None => {
            return None;
        },
        Some(x) => x,
    };
    let i7 = match p_lit(s, i6, ",comments:") {
        None => {
            return None;
        },
        Some(x) => x,
    };
    let (cm, i8) = match p_opt_str(s, i7) {
        None => {
            return None;
        },
        Some(x) => x,
    };
    let i9 = match p_lit(s, i8, ")") {
        None => {
            return None;
        },
        Some(x) => x,
    };
    Some((CompletionData { achieved_mark: am, total_marks: tm, date: d, comments: cm }, i9))
}

/// A test record.
#[verifier::rlimit(100)]
fn p_testdata(s: &Vec<char>, i: usize) -> (r: Option<(TestData, usize)>)
    ensures
        r is Some <==> parse_testdata(s@, i as int) is Some,
        r matches Some((t, j)) ==> parse_testdata(s@, i as int) == Some((t@, j as int)),
{
    proof {
        reveal(parse_testdata);
    }
    let i1 = match p_lit(s, i, "(subject:") {
        None => {
            return None;
        },
        Some(x) => x,
    };
    let (subject, i2) = match p_str(s, i1) {
        None => {
            return None;
        },
        Some(x) => x,
    };
    let i3 = match p_lit(s, i2, ",topic:") {
        None => {
            return None;
        },
        Some(x) => x,
    };
    let (topic, i4) = match p_opt_str(s, i3) {
        None => {
            return None;
        },
        Some(x) => x,
    };
    let i5 = match p_lit(s, i4, ",date_or_id:") {
        None => {
            return None;
        },
        Some(x) => x,
    };
    let (date_or_id, i6) = match p_str(s, i5) {
        None => {
            return None;
        },
        Some(x) => x,
    };
    let i7 = match p_lit(s, i6, ",qualification_level:") {
        None => {
            return None;
        },
        Some(x) => x,
    };
    let (ql, i8) = match p_opt_str(s, i7) {
        None => {
            return None;
        },
        Some(x) => x,
    };
    let i9 = match p_lit(s, i8, ",exam_board:") {
        None => {
            return None;
        },
        Some(x) => x,
    };
    let (eb, i10) = match p_opt_str(s, i9) {
        None => {
            return None;
        },
        Some(x) => x,
    };
    let i11 = match p_lit(s, i10, ",paper_link:") {
        None => {
            return None;
        },
        Some(x) => x,
    };
    let (pl, i12) = match p_opt_str(s, i11) {
        None => {
            return None;
        },
        Some(x) => x,
    };
    let i13 = match p_lit(s, i12, ",mark_scheme_link:") {
        None => {
            return None;
        },
        Some(x) => x,
    };
    let (msl, i14) = match p_opt_str(s, i13) {
        None => {
            return None;
        },
        Some(x) => x,
    };
    let i15 = match p_lit(s, i14, ",comments:") {
        None => {
            return None;
        },
        Some(x) => x,
    };
    let (cm, i16) = match p_opt_str(s, i15) {
        None => {
            return None;
        },
        Some(x) => x,
    };
    let i17 = match p_lit(s, i16, ")") {
        None => {
            return None;
        },
        Some(x) => x,
    };
    Some(
        (
            TestData {
                subject,
                topic,
                date_or_id,
                qualification_level: ql,
                exam_board: eb,
                paper_link: pl,
                mark_scheme_link: msl,
                comments: cm,
            },
            i17,
        ),
    )
}

/// A list of completions.
fn p_completions(s: &Vec<char>, i: usize) -> (r: Option<(Vec<CompletionData>, usize)>)
    ensures
        r is Some <==> parse_completions(s@, i as int) is Some,
        r matches Some((cs, j)) ==> parse_completions(s@, i as int) == Some(
            (cs.deep_view(), j as int),
        ),
{
    if let Some(j) = p_lit(s, i, "[]") {
        let empty: Vec<CompletionData> = Vec::new();
        proof {
            assert(empty.deep_view() =~= Seq::<crate::protocol::CompletionDataV>::empty());
        }
        return Some((empty, j));
    }
    let i1 = match p_lit(s, i, "[") {
        None => {
            return None;
        },
        Some(x) => x,
    };
    let (c0, i2) = match p_completion(s, i1) {
        None => {
            return None;
        },
        Some(x) => x,
    };
    if !(i1 < i2 && i2 <= s.len()) {
        return None;
    }
    let mut cs: Vec<CompletionData> = Vec::new();
    cs.push(c0);
    let mut j = i2;
    loop
        invariant
            j <= s@.len(),
            (parse_completions(s@, i as int) is Some <==> parse_completions_tail(s@, j as int)
                is Some),
            parse_completions_tail(s@, j as int) matches Some((ts, k)) ==> parse_completions(
                s@,
                i as int,
            ) == Some((cs.deep_view() + ts, k)),
        decreases s@.len() - j,
    {
        if let Some(k) = p_lit(s, j, "]") {
            proof {
                assert(cs.deep_view() + Seq::<crate::protocol::CompletionDataV>::empty()
                    =~= cs.deep_view());
            }
            return Some((cs, k));
        }
        let j1 = match p_lit(s, j, ",") {
            None => {
                return None;
            },
            Some(x) => x,
        };
        let (c, j2) = match p_completion(s, j1) {
            None => {
                return None;
            },
            Some(x) => x,
        };
        if !(j1 < j2 && j2 <= s.len()) {
            return None;
        }
        let ghost pre = cs.deep_view();
        let ghost cv = c@;
        cs.push(c);
        j = j2;
        proof {
            assert(cs.deep_view() =~= pre + seq![cv]);
            assert forall|ts: Seq<crate::protocol::CompletionDataV>, k: int|
                parse_completions_tail(s@, j as int) == Some::<
                    (Seq<crate::protocol::CompletionDataV>, int),
                >((ts, k)) implies parse_completions(s@, i as int) == Some::<
                (Seq<crate::protocol::CompletionDataV>, int),
            >((cs.deep_view() + ts, k)) by {
                assert(pre + (seq![cv] + ts) =~= cs.deep_view() + ts);
            }
        }
    }
}

/// A test paired with its completions.
fn p_tac(s: &Vec<char>, i: usize) -> (r: Option<(TestAndCompletions, usize)>)
    ensures
        r is Some <==> parse_tac(s@, i as int) is Some,
        r matches Some((t, j)) ==> parse_tac(s@, i as int) == Some((t.deep_view(), j as int)),
{
    let i1 = match p_lit(s, i, "(") {
        None => {
            return None;
        },
        Some(x) => x,
    };
    let (t, i2) = match p_testdata(s, i1) {
        None => {
            return None;
        },
        Some(x) => x,
    };
    let i3 = match p_lit(s, i2, ",") {
        None => {
            return None;
        },
        Some(x) => x,
    };
    let (cs, i4) = match p_completions(s, i3) {
        None => {
            return None;
        },
        Some(x) => x,
    };
    let i5 = match p_lit(s, i4, ")") {
        None => {
            return None;
        },
        Some(x) => x,
    };
    Some(((t, cs), i5))
}

/// A list of tests, each with its completions.
fn p_tacs(s: &Vec<char>, i: usize) -> (r: Option<(Vec<TestAndCompletions>, usize)>)
    ensures
        r is Some <==> parse_tacs(s@, i as int) is Some,
        r matches Some((ts, j)) ==> parse_tacs(s@, i as int) == Some(
            (ts.deep_view(), j as int),
        ),
{
    if let Some(j) = p_lit(s, i, "[]") {
        let empty: Vec<TestAndCompletions> = Vec::new();
        proof {
            assert(empty.deep_view() =~= Seq::<crate::protocol::TestAndCompletionsV>::empty());
        }
        return Some((empty, j));
    }
    let i1 = match p_lit(s, i, "[") {
        None => {
            return None;
        },
        Some(x) => x,
    };
    let (t0, i2) = match p_tac(s, i1) {
        None => {
            return None;
        },
        Some(x) => x,
    };
    if !(i1 < i2 && i2 <= s.len()) {
        return None;
    }
    let mut ts: Vec<TestAndCompletions> = Vec::new();
    ts.push(t0);
    let mut j = i2;
    loop
        invariant
            j <= s@.len(),
            (parse_tacs(s@, i as int) is Some <==> parse_tacs_tail(s@, j as int) is Some),
            parse_tacs_tail(s@, j as int) matches Some((rest, k)) ==> parse_tacs(s@, i as int)
                == Some((ts.deep_view() + rest, k)),
        decreases s@.len() - j,
    {
        if let Some(k) = p_lit(s, j, "]") {
            proof {
                assert(ts.deep_view() + Seq::<crate::protocol::TestAndCompletionsV>::empty()
                    =~= ts.deep_view());
            }
            return Some((ts, k));
        }
        let j1 = match p_lit(s, j, ",") {
            None => {
                return None;
            },
            Some(x) => x,
        };
        let (t, j2) = match p_tac(s, j1) {
            None => {
                return None;
            },
            Some(x) => x,
        };
        if !(j1 < j2 && j2 <= s.len()) {
            return None;
        }
        let ghost pre = ts.deep_view();
        let ghost tv = t.deep_view();
        ts.push(t);
        j = j2;
        proof {
            assert(ts.deep_view() =~= pre + seq![tv]);
            assert forall|rest: Seq<crate::protocol::TestAndCompletionsV>, k: int|
                parse_tacs_tail(s@, j as int) == Some::<
                    (Seq<crate::protocol::TestAndCompletionsV>, int),
                >((rest, k)) implies parse_tacs(s@, i as int) == Some::<
                (Seq<crate::protocol::TestAndCompletionsV>, int),
            >((ts.deep_view() + rest, k)) by {
                assert(pre + (seq![tv] + rest) =~= ts.deep_view() + rest);
            }
        }
    }
}

/// The result carried by an authentication response.
fn p_result_user(s: &Vec<char>, i: usize) -> (r: Option<(Result<User, Error>, usize)>)
    ensures
        r is Some <==> parse_result_user(s@, i as int) is Some,
        r matches Some((res, j)) ==> parse_result_user(s@, i as int) == Some(
            (
                match res {
                    Ok(u) => Ok(u@),
                    Err(e) => Err(e@),
                },
                j as int,
            ),
        ),
{
    match p_lit(s, i, "Ok(") {
        Some(i1) => {
            let (u, i2) = match p_user(s, i1) {
                None => {
                    return None;
                },
                Some(x) => x,
            };
            let i3 = match p_lit(s, i2, ")") {
                None => {
                    return None;
                },
                Some(x) => x,
            };
            Some((Ok(u), i3))
        },
        None => {
            let i1 = match p_lit(s, i, "Err(") {
                None => {
                    return None;
                },
                Some(x) => x,
            };
            let (e, i2) = match p_error(s, i1) {
                None => {
                    return None;
                },
                Some(x) => x,
            };
            let i3 = match p_lit(s, i2, ")") {
                None => {
                    return None;
                },
                Some(x) => x,
            };
            Some((Err(e), i3))
        },
    }
}

/// The result carried by a tests-and-completions response.
fn p_result_tacs(s: &Vec<char>, i: usize) -> (r: Option<
    (Result<Vec<TestAndCompletions>, Error>, usize),
>)
    ensures
        r is Some <==> parse_result_tacs(s@, i as int) is Some,
        r matches Some((res, j)) ==> parse_result_tacs(s@, i as int) == Some(
            (
                match res {
                    Ok(ts) => Ok(ts.deep_view()),
                    Err(e) => Err(e@),
                },
                j as int,
            ),
        ),
{
    match p_lit(s, i, "Ok(") {
        Some(i1) => {
            let (ts, i2) = match p_tacs(s, i1) {
                None => {
                    return None;
                },
                Some(x) => x,
            };
            let i3 = match p_lit(s, i2, ")") {
                None => {
                    return None;
                },
                Some(x) => x,
            };
            Some((Ok(ts), i3))
        },
        None => {
            let i1 = match p_lit(s, i, "Err(") {
                None => {
                    return None;
                },
                Some(x) => x,
            };
            let (e, i2) = match p_error(s, i1) {
                None => {
                    return None;
                },
                Some(x) => x,
            };
            let i3 = match p_lit(s, i2, ")") {
                None => {
                    return None;
                },
                Some(x) => x,
            };
            Some((Err(e), i3))
        },
    }
}

/// A request envelope at position `i`.
fn p_c2s(s: &Vec<char>, i: usize) -> (r: Option<(ClientToServerMsg, usize)>)
    ensures
        r is Some <==> parse_c2s(s@, i as int) is Some,
        r matches Some((m, j)) ==> parse_c2s(s@, i as int) == Some((m@, j as int)),
{
    match p_lit(s, i, "Authenticate(username:") {
        Some(i1) => {
            let (username, i2) = match p_str(s, i1) {
                None => {
                    return None;
                },
                Some(x) => x,
            };
            let i3 = match p_lit(s, i2, ",password:") {
                None => {
                    return None;
                },
                Some(x) => x,
            };
            let (password, i4) = match p_str(s, i3) {
                None => {
                    return None;
                },
                Some(x) => x,
            };
            let i5 = match p_lit(s, i4, ")") {
                None => {
                    return None;
                },
                Some(x) => x,
            };
            Some((ClientToServerMsg::Authenticate { username, password }, i5))
        },
        None => {
            match p_lit(s, i, "CreateUser(username:") {
                Some(i1) => {
                    let (username, i2) = match p_str(s, i1) {
                        None => {
                            return None;
                        },
                        Some(x) => x,
                    };
                    let i3 = match p_lit(s, i2, ",password:") {
                        None => {
                            return None;
                        },
                        Some(x) => x,
                    };
                    let (password, i4) = match p_str(s, i3) {
                        None => {
                            return None;
                        },
                        Some(x) => x,
                    };
                    let i5 = match p_lit(s, i4, ")") {
                        None => {
                            return None;
                        },
                        Some(x) => x,
                    };
                    Some((ClientToServerMsg::CreateUser { username, password }, i5))
                },
                None => {
                    let i1 = match p_lit(s, i, "GetTestsAndCompletions(user_id:") {
                        None => {
                            return None;
                        },
                        Some(x) => x,
                    };
                    let (user_id, i2) = match p_str(s, i1) {
                        None => {
                            return None;
                        },
                        Some(x) => x,
                    };
                    let i3 = match p_lit(s, i2, ")") {
                        None => {
                            return None;
                        },
                        Some(x) => x,
                    };
                    Some((ClientToServerMsg::GetTestsAndCompletions { user_id }, i3))
                },
            }
        },
    }
}

/// A response envelope at position `i`.
fn p_s2c(s: &Vec<char>, i: usize) -> (r: Option<(ServerToClientMsg, usize)>)
    ensures
        r is Some <==> parse_s2c(s@, i as int) is Some,
        r matches Some((m, j)) ==> parse_s2c(s@, i as int) == Some((m@, j as int)),
{
    match p_lit(s, i, "AuthenticationResponse(") {
        Some(i1) => {
            let (res, i2) = match p_result_user(s, i1) {
                None => {
                    return None;
                },
                Some(x) => x,
            };
            let i3 = match p_lit(s, i2, ")") {
                None => {
                    return None;
                },
                Some(x) => x,
            };
            Some((ServerToClientMsg::AuthenticationResponse(res), i3))
        },
        None => {
            let i1 = match p_lit(s, i, "TestsAndCompletionsForUser(") {
                None => {
                    return None;
                },
                Some(x) => x,
            };
            let (res, i2) = match p_result_tacs(s, i1) {
                None => {
                    return None;
                },
                Some(x) => x,
            };
            let i3 = match p_lit(s, i2, ")") {
                None => {
                    return None;
                },
                Some(x) => x,
            };
            Some((ServerToClientMsg::TestsAndCompletionsForUser(res), i3))
        },
    }
}

/// The user record denoted by a whole text, which must hold exactly one.
pub fn decode_user(s: &str) -> (r: Option<User>)
    ensures
        r is Some <==> dec_user(s@) is Some,
        r matches Some(u) ==> dec_user(s@) == Some(u@),
{
    let cs = str_to_chars(s);
    match p_user(&cs, 0) {
        None => None,
        Some((u, j)) => {
            if j == cs.len() {
                Some(u)
            } else {
                None
            }
        },
    }
}

/// The request envelope denoted by a whole text, which must hold exactly
/// one.
pub fn decode_client_msg(s: &str) -> (r: Option<ClientToServerMsg>)
    ensures
        r is Some <==> dec_c2s(s@) is Some,
        r matches Some(m) ==> dec_c2s(s@) == Some(m@),
{
    let cs = str_to_chars(s);
    match p_c2s(&cs, 0) {
        None => None,
        Some((m, j)) => {
            if j == cs.len() {
                Some(m)
            } else {
                None
            }
        },
    }
}

/// The response envelope denoted by a whole text, which must hold exactly
/// one.
pub fn decode_server_msg(s: &str) -> (r: Option<ServerToClientMsg>)
    ensures
        r is Some <==> dec_s2c(s@) is Some,
        r matches Some(m) ==> dec_s2c(s@) == Some(m@),
{
    let cs = str_to_chars(s);
    match p_s2c(&cs, 0) {
        None => None,
        Some((m, j)) => {
            if j == cs.len() {
                Some(m)
            } else {
                None
            }
        },
    }
}

} // verus!
