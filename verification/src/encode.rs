//! The executable encoder: builds the text of a message envelope, proved
//! equal to the encoding functions of [`crate::codec`].

use vstd::prelude::*;
use vstd::string::StrSliceExecFns;
use crate::codec::{
    char_of_digit, dec_digits, enc_c2s, enc_completion, enc_completions, enc_completions_tail,
    enc_date, enc_dberr, enc_error, enc_i32, enc_nat, enc_opt_date, enc_opt_str, enc_result_tacs, enc_result_user, enc_s2c, enc_str,
    enc_tac, enc_tacs, enc_tacs_tail, enc_testdata, enc_user, esc, esc_char,
};
use crate::error::{DieselError, Error};
use crate::protocol::{
    ClientToServerMsg, CompletionData, Date, ServerToClientMsg, TestAndCompletions, TestData, User,
};
use crate::text::{chars_to_string, str_to_chars};

verus! {

/// `esc` distributes over concatenation.
proof fn lemma_esc_app(a: Seq<char>, b: Seq<char>)
    ensures
        esc(a + b) == esc(a) + esc(b),
    decreases a.len(),
{
    if a.len() == 0 {
        assert(a + b =~= b);
        assert(esc(a) + esc(b) =~= esc(b));
    } else {
        lemma_esc_app(a.drop_first(), b);
        assert((a + b).drop_first() =~= a.drop_first() + b);
        assert(esc(a + b) =~= esc(a) + esc(b));
    }
}

/// Append the characters of the literal `lit`.
fn push_lit(out: &mut Vec<char>, lit: &str)
    ensures
        final(out)@ == old(out)@ + lit@,
{
    let n = lit.unicode_len();
    let mut i: usize = 0;
    while i < n
        invariant
            i <= n,
            n == lit@.len(),
            out@ == old(out)@ + lit@.subrange(0, i as int),
        decreases n - i,
    {
        out.push(lit.get_char(i));
        i = i + 1;
        proof {
            assert(out@ =~= old(out)@ + lit@.subrange(0, i as int));
        }
    }
    proof {
        assert(out@ =~= old(out)@ + lit@);
    }
}

/// Append a quoted, escaped string.
fn push_str_enc(out: &mut Vec<char>, s: &str)
    ensures
        final(out)@ == old(out)@ + enc_str(s@),
{
    let cs = str_to_chars(s);
    out.push('"');
    let ghost start = out@;
    let mut i: usize = 0;
    while i < cs.len()
        invariant
            i <= cs@.len(),
            cs@ == s@,
            start == old(out)@ + seq!['"'],
            out@ == start + esc(s@.subrange(0, i as int)),
        decreases cs@.len() - i,
    {
        let c = cs[i];
        if c == '"' || c == '\\' {
            out.push('\\');
            out.push(c);
        } else {
            out.push(c);
        }
        i = i + 1;
        proof {
            let pre = s@.subrange(0, i - 1);
            let cur = s@.subrange(0, i as int);
            assert(cur =~= pre + seq![s@[i - 1]]);
            lemma_esc_app(pre, seq![s@[i - 1]]);
            assert(seq![s@[i - 1]].drop_first() =~= Seq::<char>::empty());
            assert(esc(Seq::<char>::empty()) == Seq::<char>::empty());
            assert(esc(seq![s@[i - 1]]) =~= esc_char(s@[i - 1]));
            assert(out@ =~= start + esc(cur));
        }
    }
    out.push('"');
    proof {
        assert(s@.subrange(0, s@.len() as int) =~= s@);
        assert(out@ =~= old(out)@ + enc_str(s@));
    }
}

/// The decimal digit character for `d`.
fn digit_char(d: u64) -> (r: char)
    requires
        d < 10,
    ensures
        r == char_of_digit(d as int),
{
    if d == 0 {
        '0'
    } else if d == 1 {
        '1'
    } else if d == 2 {
        '2'
    } else if d == 3 {
        '3'
    } else if d == 4 {
        '4'
    } else if d == 5 {
        '5'
    } else if d == 6 {
        '6'
    } else if d == 7 {
        '7'
    } else if d == 8 {
        '8'
    } else {
        '9'
    }
}

/// Append the canonical decimal writing of `n`.
fn push_u64(out: &mut Vec<char>, n: u64)
    ensures
        final(out)@ == old(out)@ + enc_nat(n as nat),
{
    if n == 0 {
        out.push('0');
        proof {
            assert(out@ =~= old(out)@ + enc_nat(0));
        }
        return ;
    }
    let mut rev: Vec<char> = Vec::new();
    let mut m = n;
    while m > 0
        invariant
            dec_digits(n as nat) == dec_digits(m as nat) + rev@.reverse(),
        decreases m,
    {
        let d = m % 10;
        rev.push(digit_char(d));
        m = m / 10;
        proof {
            assert(dec_digits(n as nat) =~= dec_digits(m as nat) + rev@.reverse());
        }
    }
    proof {
        assert(dec_digits(n as nat) =~= rev@.reverse());
    }
    let mut k = rev.len();
    while k > 0
        invariant
            k <= rev@.len(),
            out@ == old(out)@ + rev@.reverse().subrange(0, rev@.len() - k),
        decreases k,
    {
        k = k - 1;
        out.push(rev[k]);
        proof {
            assert(rev@.reverse()[rev@.len() - k - 1] == rev@[k as int]);
            assert(out@ =~= old(out)@ + rev@.reverse().subrange(0, rev@.len() - k));
        }
    }
    proof {
        assert(rev@.reverse().subrange(0, rev@.len() as int) =~= rev@.reverse());
        assert(out@ =~= old(out)@ + enc_nat(n as nat));
    }
}

/// Append the canonical decimal writing of `n`, with a minus sign when
/// negative.
fn push_i32(out: &mut Vec<char>, n: i32)
    ensures
        final(out)@ == old(out)@ + enc_i32(n),
{
    if n < 0 {
        out.push('-');
        let m = (-(n as i64)) as u64;
        push_u64(out, m);
        proof {
            assert(out@ =~= old(out)@ + enc_i32(n));
        }
    } else {
        push_u64(out, n as u64);
    }
}

/// Append an optional string.
fn push_opt_str(out: &mut Vec<char>, o: &Option<String>)
    ensures
        final(out)@ == old(out)@ + enc_opt_str(o.deep_view()),
{
    match o {
        None => push_lit(out, "None"),
        Some(s) => {
            push_lit(out, "Some(");
            push_str_enc(out, s.as_str());
            push_lit(out, ")");
            proof {
                assert(out@ =~= old(out)@ + enc_opt_str(o.deep_view()));
            }
        },
    }
}

/// Append a calendar date.
fn push_date(out: &mut Vec<char>, d: &Date)
    ensures
        final(out)@ == old(out)@ + enc_date(*d),
{
    push_lit(out, "(year:");
    push_i32(out, d.year);
    push_lit(out, ",month:");
    push_i32(out, d.month);
    push_lit(out, ",day:");
    push_i32(out, d.day);
    push_lit(out, ")");
    proof {
        assert(out@ =~= old(out)@ + enc_date(*d));
    }
}

/// Append an optional calendar date.
fn push_opt_date(out: &mut Vec<char>, o: &Option<Date>)
    ensures
        final(out)@ == old(out)@ + enc_opt_date(*o),
{
    match o {
        None => push_lit(out, "None"),
        Some(d) => {
            push_lit(out, "Some(");
            push_date(out, d);
            push_lit(out, ")");
            proof {
                assert(out@ =~= old(out)@ + enc_opt_date(*o));
            }
        },
    }
}

/// Append a user record.
fn push_user(out: &mut Vec<char>, u: &User)
    ensures
        final(out)@ == old(out)@ + enc_user(u@),
{
    push_lit(out, "(id:");
    push_str_enc(out, u.id.as_str());
    push_lit(out, ",username:");
    push_str_enc(out, u.username.as_str());
    push_lit(out, ")");
    proof {
        assert(out@ =~= old(out)@ + enc_user(u@));
    }
}

/// Append a database-layer error.
fn push_dberr(out: &mut Vec<char>, e: &DieselError)
    ensures
        final(out)@ == old(out)@ + enc_dberr(e@),
{
    match e {
        DieselError::NotFound => push_lit(out, "NotFound"),
        DieselError::UniqueViolation(m, d, h) => {
            push_lit(out, "UniqueViolation(");
            push_str_enc(out, m.as_str());
            push_lit(out, ",");
            push_opt_str(out, d);
            push_lit(out, ",");
            push_opt_str(out, h);
            push_lit(out, ")");
            proof {
                assert(out@ =~= old(out)@ + enc_dberr(e@));
            }
        },
        DieselError::Other(m) => {
            push_lit(out, "Other(");
            push_str_enc(out, m.as_str());
            push_lit(out, ")");
            proof {
                assert(out@ =~= old(out)@ + enc_dberr(e@));
            }
        },
    }
}

/// Append a business error.
fn push_error(out: &mut Vec<char>, e: &Error)
    ensures
        final(out)@ == old(out)@ + enc_error(e@),
{
    match e {
        Error::DatabaseError(d) => {
            push_lit(out, "DatabaseError(");
            push_dberr(out, d);
            push_lit(out, ")");
            proof {
                assert(out@ =~= old(out)@ + enc_error(e@));
            }
        },
        Error::InvalidPassword => push_lit(out, "InvalidPassword"),
        Error::HashingError(m) => {
            push_lit(out, "HashingError(");
            push_str_enc(out, m.as_str());
            push_lit(out, ")");
            proof {
                assert(out@ =~= old(out)@ + enc_error(e@));
            }
        },
    }
}

/// Append a completion record.
fn push_completion(out: &mut Vec<char>, c: &CompletionData)
    ensures
        final(out)@ == old(out)@ + enc_completion(c@),
{
    push_lit(out, "(achieved_mark:");
    push_i32(out, c.achieved_mark);
    push_lit(out, ",total_marks:");
    push_i32(out, c.total_marks);
    push_lit(out, ",date:");
    push_opt_date(out, &c.date);
    push_lit(out, ",comments:");
    push_opt_str(out, &c.comments);
    push_lit(out, ")");
    proof {
        assert(out@ =~= old(out)@ + enc_completion(c@));
    }
}

/// Append a test record.
#[verifier::rlimit(100)]
fn push_testdata(out: &mut Vec<char>, t: &TestData)
    ensures
        final(out)@ == old(out)@ + enc_testdata(t@),
{
    let ghost x0 = "(subject:"@;
    let ghost x1 = x0 + enc_str(t.subject@);
    let ghost x2 = x1 + ",topic:"@;
    let ghost x3 = x2 + enc_opt_str(t.topic.deep_view());
    let ghost x4 = x3 + ",date_or_id:"@;
    let ghost x5 = x4 + enc_str(t.date_or_id@);
    let ghost x6 = x5 + ",qualification_level:"@;
    let ghost x7 = x6 + enc_opt_str(t.qualification_level.deep_view());
    let ghost x8 = x7 + ",exam_board:"@;
    let ghost x9 = x8 + enc_opt_str(t.exam_board.deep_view());
    let ghost x10 = x9 + ",paper_link:"@;
    let ghost x11 = x10 + enc_opt_str(t.paper_link.deep_view());
    let ghost x12 = x11 + ",mark_scheme_link:"@;
    let ghost x13 = x12 + enc_opt_str(t.mark_scheme_link.deep_view());
    let ghost x14 = x13 + ",comments:"@;
    let ghost x15 = x14 + enc_opt_str(t.comments.deep_view());
    push_lit(out, "(subject:");
    push_str_enc(out, t.subject.as_str());
    proof {
        assert(out@ =~= old(out)@ + x1);
    }
    push_lit(out, ",topic:");
    push_opt_str(out, &t.topic);
    proof {
        assert(out@ =~= old(out)@ + x3);
    }
    push_lit(out, ",date_or_id:");
    push_str_enc(out, t.date_or_id.as_str());
    proof {
        assert(out@ =~= old(out)@ + x5);
    }
    push_lit(out, ",qualification_level:");
    push_opt_str(out, &t.qualification_level);
    proof {
        assert(out@ =~= old(out)@ + x7);
    }
    push_lit(out, ",exam_board:");
    push_opt_str(out, &t.exam_board);
    proof {
        assert(out@ =~= old(out)@ + x9);
    }
    push_lit(out, ",paper_link:");
    push_opt_str(out, &t.paper_link);
    proof {
        assert(out@ =~= old(out)@ + x11);
    }
    push_lit(out, ",mark_scheme_link:");
    push_opt_str(out, &t.mark_scheme_link);
    proof {
        assert(out@ =~= old(out)@ + x13);
    }
    push_lit(out, ",comments:");
    push_opt_str(out, &t.comments);
    proof {
        assert(out@ =~= old(out)@ + x15);
    }
    push_lit(out, ")");
    proof {
        assert(enc_testdata(t@) == x15 + ")"@);
        assert(out@ =~= old(out)@ + enc_testdata(t@));
    }
}

/// Append the elements of a completion list from `start` on, each with its
/// leading comma, and the closing bracket.
fn push_completions_tail(out: &mut Vec<char>, cs: &Vec<CompletionData>, start: usize)
    requires
        start <= cs@.len(),
    ensures
        final(out)@ == old(out)@ + enc_completions_tail(
            cs.deep_view().subrange(start as int, cs.deep_view().len() as int),
        ),
    decreases cs@.len() - start,
{
    let ghost rest = cs.deep_view().subrange(start as int, cs.deep_view().len() as int);
    if start == cs.len() {
        push_lit(out, "]");
        proof {
            assert(rest =~= Seq::<crate::protocol::CompletionDataV>::empty());
        }
    } else {
        push_lit(out, ",");
        push_completion(out, &cs[start]);
        push_completions_tail(out, cs, start + 1);
        proof {
            assert(rest.drop_first() =~= cs.deep_view().subrange(
                start + 1,
                cs.deep_view().len() as int,
            ));
            assert(rest[0] == cs@[start as int]@);
            assert(out@ =~= old(out)@ + enc_completions_tail(rest));
        }
    }
}

/// Append a list of completions.
fn push_completions(out: &mut Vec<char>, cs: &Vec<CompletionData>)
    ensures
        final(out)@ == old(out)@ + enc_completions(cs.deep_view()),
{
    if cs.len() == 0 {
        push_lit(out, "[]");
    } else {
        push_lit(out, "[");
        push_completion(out, &cs[0]);
        push_completions_tail(out, cs, 1);
        proof {
            assert(cs.deep_view().drop_first() =~= cs.deep_view().subrange(
                1,
                cs.deep_view().len() as int,
            ));
            assert(out@ =~= old(out)@ + enc_completions(cs.deep_view()));
        }
    }
}

/// Append a test paired with its completions.
fn push_tac(out: &mut Vec<char>, t: &TestAndCompletions)
    ensures
        final(out)@ == old(out)@ + enc_tac(t.deep_view()),
{
    push_lit(out, "(");
    push_testdata(out, &t.0);
    push_lit(out, ",");
    push_completions(out, &t.1);
    push_lit(out, ")");
    proof {
        assert(out@ =~= old(out)@ + enc_tac(t.deep_view()));
    }
}

/// Append the elements of a test-and-completions list from `start` on, each
/// with its leading comma, and the closing bracket.
#[verifier::rlimit(100)]
fn push_tacs_tail(out: &mut Vec<char>, ts: &Vec<TestAndCompletions>, start: usize)
    requires
        start <= ts@.len(),
    ensures
        final(out)@ == old(out)@ + enc_tacs_tail(
            ts.deep_view().subrange(start as int, ts.deep_view().len() as int),
        ),
    decreases ts@.len() - start,
{
    let ghost rest = ts.deep_view().subrange(start as int, ts.deep_view().len() as int);
    if start == ts.len() {
        push_lit(out, "]");
        proof {
            assert(rest =~= Seq::<crate::protocol::TestAndCompletionsV>::empty());
        }
    } else {
        push_lit(out, ",");
        push_tac(out, &ts[start]);
        push_tacs_tail(out, ts, start + 1);
        proof {
            assert(rest.drop_first() =~= ts.deep_view().subrange(
                start + 1,
                ts.deep_view().len() as int,
            ));
            assert(rest[0] == ts@[start as int].deep_view());
            assert(out@ =~= old(out)@ + enc_tacs_tail(rest));
        }
    }
}

/// Append a list of tests, each with its completions.
fn push_tacs(out: &mut Vec<char>, ts: &Vec<TestAndCompletions>)
    ensures
        final(out)@ == old(out)@ + enc_tacs(ts.deep_view()),
{
    if ts.len() == 0 {
        push_lit(out, "[]");
    } else {
        push_lit(out, "[");
        push_tac(out, &ts[0]);
        push_tacs_tail(out, ts, 1);
        proof {
            assert(ts.deep_view().drop_first() =~= ts.deep_view().subrange(
                1,
                ts.deep_view().len() as int,
            ));
            assert(out@ =~= old(out)@ + enc_tacs(ts.deep_view()));
        }
    }
}

/// Append a request envelope.
fn push_c2s(out: &mut Vec<char>, m: &ClientToServerMsg)
    ensures
        final(out)@ == old(out)@ + enc_c2s(m@),
{
    match m {
        ClientToServerMsg::Authenticate { username, password } => {
            push_lit(out, "Authenticate(username:");
            push_str_enc(out, username.as_str());
            push_lit(out, ",password:");
            push_str_enc(out, password.as_str());
            push_lit(out, ")");
            proof {
                assert(out@ =~= old(out)@ + enc_c2s(m@));
            }
        },
        ClientToServerMsg::CreateUser { username, password } => {
            push_lit(out, "CreateUser(username:");
            push_str_enc(out, username.as_str());
            push_lit(out, ",password:");
            push_str_enc(out, password.as_str());
            push_lit(out, ")");
            proof {
                assert(out@ =~= old(out)@ + enc_c2s(m@));
            }
        },
        ClientToServerMsg::GetTestsAndCompletions { user_id } => {
            push_lit(out, "GetTestsAndCompletions(user_id:");
            push_str_enc(out, user_id.as_str());
            push_lit(out, ")");
            proof {
                assert(out@ =~= old(out)@ + enc_c2s(m@));
            }
        },
    }
}

/// Append the result carried by an authentication response.
fn push_result_user(out: &mut Vec<char>, r: &Result<User, Error>)
    ensures
        final(out)@ == old(out)@ + enc_result_user(
            match r {
                Ok(u) => Ok(u@),
                Err(e) => Err(e@),
            },
        ),
{
    match r {
        Ok(u) => {
            push_lit(out, "Ok(");
            push_user(out, u);
            push_lit(out, ")");
        },
        Err(e) => {
            push_lit(out, "Err(");
            push_error(out, e);
            push_lit(out, ")");
        },
    }
    proof {
        assert(out@ =~= old(out)@ + enc_result_user(
            match r {
                Ok(u) => Ok(u@),
                Err(e) => Err(e@),
            },
        ));
    }
}

/// Append the result carried by a tests-and-completions response.
fn push_result_tacs(out: &mut Vec<char>, r: &Result<Vec<TestAndCompletions>, Error>)
    ensures
        final(out)@ == old(out)@ + enc_result_tacs(
            match r {
                Ok(ts) => Ok(ts.deep_view()),
                Err(e) => Err(e@),
            },
        ),
{
    match r {
        Ok(ts) => {
            push_lit(out, "Ok(");
            push_tacs(out, ts);
            push_lit(out, ")");
        },
        Err(e) => {
            push_lit(out, "Err(");
            push_error(out, e);
            push_lit(out, ")");
        },
    }
    proof {
        assert(out@ =~= old(out)@ + enc_result_tacs(
            match r {
                Ok(ts) => Ok(ts.deep_view()),
                Err(e) => Err(e@),
            },
        ));
    }
}

/// Append a response envelope.
fn push_s2c(out: &mut Vec<char>, m: &ServerToClientMsg)
    ensures
        final(out)@ == old(out)@ + enc_s2c(m@),
{
    match m {
        ServerToClientMsg::AuthenticationResponse(r) => {
            push_lit(out, "AuthenticationResponse(");
            push_result_user(out, r);
            push_lit(out, ")");
            proof {
                assert(out@ =~= old(out)@ + enc_s2c(m@));
            }
        },
        ServerToClientMsg::TestsAndCompletionsForUser(r) => {
            push_lit(out, "TestsAndCompletionsForUser(");
            push_result_tacs(out, r);
            push_lit(out, ")");
            proof {
                assert(out@ =~= old(out)@ + enc_s2c(m@));
            }
        },
    }
}

/// The decimal writing of `n` as a string.
pub fn nat_string(n: u64) -> (r: String)
    ensures
        r@ == enc_nat(n as nat),
{
    let mut out: Vec<char> = Vec::new();
    push_u64(&mut out, n);
    proof {
        assert(out@ =~= enc_nat(n as nat));
    }
    chars_to_string(&out)
}

/// The storage text of a user record.
pub fn encode_user(u: &User) -> (r: String)
    ensures
        r@ == enc_user(u@),
{
    let mut out: Vec<char> = Vec::new();
    push_user(&mut out, u);
    proof {
        assert(out@ =~= enc_user(u@));
    }
    chars_to_string(&out)
}

/// The display text of a business error.
pub fn encode_error(e: &Error) -> (r: String)
    ensures
        r@ == enc_error(e@),
{
    let mut out: Vec<char> = Vec::new();
    push_error(&mut out, e);
    proof {
        assert(out@ =~= enc_error(e@));
    }
    chars_to_string(&out)
}

/// The wire text of a request envelope.
pub fn encode_client_msg(m: &ClientToServerMsg) -> (r: String)
    ensures
        r@ == enc_c2s(m@),
{
    let mut out: Vec<char> = Vec::new();
    push_c2s(&mut out, m);
    proof {
        assert(out@ =~= enc_c2s(m@));
    }
    chars_to_string(&out)
}

/// The wire text of a response envelope.
pub fn encode_server_msg(m: &ServerToClientMsg) -> (r: String)
    ensures
        r@ == enc_s2c(m@),
{
    let mut out: Vec<char> = Vec::new();
    push_s2c(&mut out, m);
    proof {
        assert(out@ =~= enc_s2c(m@));
    }
    chars_to_string(&out)
}

} // verus!
