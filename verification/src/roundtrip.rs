//! The round-trip laws of the wire format: parsing an encoded envelope
//! yields the original value back, for every variant and every payload.

use vstd::prelude::*;
use crate::codec::{
    char_of_digit, dec_digits, digit_run_end, digit_val, enc_c2s, enc_completion, enc_completions,
    enc_completions_tail, enc_date, enc_dberr, enc_error, enc_i32, enc_nat, enc_opt_date,
    enc_opt_str, enc_result_tacs, enc_result_user, enc_s2c, enc_str, enc_tac, enc_tacs,
    enc_tacs_tail, enc_testdata, enc_user, esc,
    esc_char, is_digit, parse_c2s, parse_completion, parse_completions, parse_completions_tail,
    parse_date, parse_dberr, parse_error, parse_i32, parse_lit, parse_nat, parse_opt_date,
    parse_opt_str, parse_result_tacs, parse_result_user, parse_s2c, parse_str, parse_str_body,
    parse_tac, parse_tacs, parse_tacs_tail, parse_testdata, parse_user, val_of_digits, dec_c2s,
    dec_s2c,
};
use crate::error::{DieselErrorV, ErrorV};
use crate::protocol::{
    completions_wf, tacs_wf, ClientToServerMsgV, CompletionDataV, Date, ServerToClientMsgV,
    TestAndCompletionsV, TestDataV, UserV,
};

verus! {

/// Splitting a suffix of `s` as `a + b` pins down the two subranges.
proof fn lemma_unappend(s: Seq<char>, i: int, a: Seq<char>, b: Seq<char>)
    requires
        0 <= i <= s.len(),
        s.subrange(i, s.len() as int) == a + b,
    ensures
        i + a.len() <= s.len(),
        s.subrange(i, i + a.len()) == a,
        s.subrange(i + a.len(), s.len() as int) == b,
{
    assert(s.subrange(i, s.len() as int).len() == a.len() + b.len());
    assert forall|t: int| 0 <= t < a.len() implies s.subrange(i, i + a.len())[t] == a[t] by {
        assert(s.subrange(i, s.len() as int)[t] == s[i + t]);
    }
    assert(s.subrange(i, i + a.len()) =~= a);
    assert forall|t: int|
        0 <= t < b.len() implies s.subrange(i + a.len(), s.len() as int)[t] == b[t] by {
        assert(s.subrange(i, s.len() as int)[a.len() + t] == s[i + a.len() + t]);
    }
    assert(s.subrange(i + a.len(), s.len() as int) =~= b);
}

/// A literal parses where the suffix starts with it.
proof fn lemma_parse_lit(s: Seq<char>, i: int, lit: Seq<char>, rest: Seq<char>)
    requires
        0 <= i <= s.len(),
        s.subrange(i, s.len() as int) == lit + rest,
    ensures
        parse_lit(s, i, lit) == Some(i + lit.len()),
        i + lit.len() <= s.len(),
        s.subrange(i + lit.len(), s.len() as int) == rest,
{
    lemma_unappend(s, i, lit, rest);
}

/// A literal fails to parse where some position disagrees with it.
proof fn lemma_lit_no_at(s: Seq<char>, i: int, lit: Seq<char>, k: int)
    requires
        0 <= i,
        0 <= k < lit.len(),
        i + k < s.len(),
        s[i + k] != lit[k],
    ensures
        parse_lit(s, i, lit) is None,
{
    if i + lit.len() <= s.len() && s.subrange(i, i + lit.len()) == lit {
        assert(s.subrange(i, i + lit.len())[k] == s[i + k]);
    }
}

/// The body of a quoted string parses back to the characters it encodes.
proof fn lemma_parse_str_body(s: Seq<char>, i: int, q: Seq<char>, rest: Seq<char>)
    requires
        0 <= i <= s.len(),
        s.subrange(i, s.len() as int) == esc(q) + seq!['"'] + rest,
    ensures
        parse_str_body(s, i) == Some((q, i + esc(q).len() + 1)),
        i + esc(q).len() + 1 <= s.len(),
        s.subrange(i + esc(q).len() + 1, s.len() as int) == rest,
    decreases q.len(),
{
    if q.len() == 0 {
        assert(esc(q) + seq!['"'] + rest =~= seq!['"'] + rest);
        lemma_unappend(s, i, seq!['"'], rest);
        assert(s.subrange(i, s.len() as int)[0] == s[i]);
        assert((seq!['"'] + rest)[0] == '"');
        assert(s[i] == '"');
    } else {
        let c = q[0];
        let q1 = q.drop_first();
        assert(esc(q) == esc_char(c) + esc(q1));
        if c == '"' || c == '\\' {
            let inner = esc(q1) + seq!['"'] + rest;
            assert(esc(q) + seq!['"'] + rest =~= seq!['\\', c] + inner);
            lemma_unappend(s, i, seq!['\\', c], inner);
            assert(s.subrange(i, s.len() as int)[0] == s[i]);
            assert(s.subrange(i, s.len() as int)[1] == s[i + 1]);
            assert((seq!['\\', c] + inner)[0] == '\\');
            assert((seq!['\\', c] + inner)[1] == c);
            assert(s[i] == '\\' && s[i + 1] == c);
            lemma_parse_str_body(s, i + 2, q1, rest);
            assert(seq![s[i + 1]] + q1 =~= q);
            assert(esc(q).len() == 2 + esc(q1).len());
        } else {
            let inner = esc(q1) + seq!['"'] + rest;
            assert(esc(q) + seq!['"'] + rest =~= seq![c] + inner);
            lemma_unappend(s, i, seq![c], inner);
            assert(s.subrange(i, s.len() as int)[0] == s[i]);
            assert((seq![c] + inner)[0] == c);
            assert(s[i] == c);
            lemma_parse_str_body(s, i + 1, q1, rest);
            assert(seq![s[i]] + q1 =~= q);
            assert(esc(q).len() == 1 + esc(q1).len());
        }
    }
}

/// A quoted string parses back to the characters it encodes.
proof fn lemma_parse_str(s: Seq<char>, i: int, q: Seq<char>, rest: Seq<char>)
    requires
        0 <= i <= s.len(),
        s.subrange(i, s.len() as int) == enc_str(q) + rest,
    ensures
        parse_str(s, i) == Some((q, i + enc_str(q).len())),
        i + enc_str(q).len() <= s.len(),
        s.subrange(i + enc_str(q).len(), s.len() as int) == rest,
{
    assert(enc_str(q) + rest =~= seq!['"'] + (esc(q) + seq!['"'] + rest));
    lemma_unappend(s, i, seq!['"'], esc(q) + seq!['"'] + rest);
    assert(s.subrange(i, s.len() as int)[0] == s[i]);
    assert(s[i] == '"');
    lemma_parse_str_body(s, i + 1, q, rest);
    assert(enc_str(q).len() == esc(q).len() + 2);
}

/// Every character that `dec_digits` writes is a digit, and the digits read
/// back to the number.
proof fn lemma_dec_digits(n: nat)
    ensures
        forall|k: int| 0 <= k < dec_digits(n).len() ==> is_digit(#[trigger] dec_digits(n)[k]),
        val_of_digits(dec_digits(n)) == n,
        n > 0 ==> dec_digits(n).len() >= 1,
    decreases n,
{
    if n == 0 {
    } else {
        lemma_dec_digits(n / 10);
        let ds = dec_digits(n);
        let d = char_of_digit((n % 10) as int);
        assert(is_digit(d));
        assert(digit_val(d) == n % 10);
        assert(ds == dec_digits(n / 10) + seq![d]);
        assert(ds.drop_last() =~= dec_digits(n / 10));
        assert(ds.last() == d);
        assert(val_of_digits(ds) == val_of_digits(dec_digits(n / 10)) * 10 + n % 10);
        assert forall|k: int| 0 <= k < ds.len() implies is_digit(#[trigger] ds[k]) by {
            if k < ds.len() - 1 {
                assert(ds[k] == dec_digits(n / 10)[k]);
            }
        }
    }
}

/// The digit run ends exactly where the written digits end.
proof fn lemma_digit_run(s: Seq<char>, i: int, ds: Seq<char>, rest: Seq<char>)
    requires
        0 <= i <= s.len(),
        s.subrange(i, s.len() as int) == ds + rest,
        forall|k: int| 0 <= k < ds.len() ==> is_digit(#[trigger] ds[k]),
        rest.len() > 0,
        !is_digit(rest[0]),
    ensures
        digit_run_end(s, i) == i + ds.len(),
        s.subrange(i + ds.len(), s.len() as int) == rest,
    decreases ds.len(),
{
    lemma_unappend(s, i, ds, rest);
    if ds.len() == 0 {
        assert(s.subrange(i, s.len() as int)[0] == s[i]);
        assert(s[i] == rest[0]);
    } else {
        assert(s.subrange(i, s.len() as int)[0] == s[i]);
        assert(s[i] == ds[0]);
        assert(is_digit(s[i]));
        assert(s.subrange(i + 1, s.len() as int) =~= ds.drop_first() + rest);
        lemma_digit_run(s, i + 1, ds.drop_first(), rest);
    }
}

/// A written number parses back to its value, when what follows is not a
/// digit.
proof fn lemma_parse_nat(s: Seq<char>, i: int, n: nat, rest: Seq<char>)
    requires
        0 <= i <= s.len(),
        s.subrange(i, s.len() as int) == enc_nat(n) + rest,
        rest.len() > 0,
        !is_digit(rest[0]),
    ensures
        parse_nat(s, i) == Some((n as int, i + enc_nat(n).len())),
        i + enc_nat(n).len() <= s.len(),
        s.subrange(i + enc_nat(n).len(), s.len() as int) == rest,
{
    lemma_unappend(s, i, enc_nat(n), rest);
    lemma_dec_digits(n);
    if n == 0 {
        assert(enc_nat(0) == seq!['0']);
        assert(is_digit('0'));
        assert(forall|k: int|
            0 <= k < enc_nat(0).len() ==> is_digit(#[trigger] enc_nat(0)[k]));
        lemma_digit_run(s, i, enc_nat(n), rest);
        let run = s.subrange(i, i + 1);
        assert(run =~= seq!['0']);
        assert(run.drop_last() =~= Seq::<char>::empty());
        assert(val_of_digits(run) == 0);
    } else {
        lemma_digit_run(s, i, enc_nat(n), rest);
        assert(s.subrange(i, i + enc_nat(n).len()) == dec_digits(n));
    }
}

/// A written signed number parses back to its value, when what follows is
/// not a digit.
proof fn lemma_parse_i32(s: Seq<char>, i: int, v: i32, rest: Seq<char>)
    requires
        0 <= i <= s.len(),
        s.subrange(i, s.len() as int) == enc_i32(v) + rest,
        rest.len() > 0,
        !is_digit(rest[0]),
    ensures
        parse_i32(s, i) == Some((v, i + enc_i32(v).len())),
        i + enc_i32(v).len() <= s.len(),
        s.subrange(i + enc_i32(v).len(), s.len() as int) == rest,
{
    lemma_unappend(s, i, enc_i32(v), rest);
    if v < 0 {
        let n = (-(v as int)) as nat;
        assert(enc_i32(v) + rest =~= seq!['-'] + (enc_nat(n) + rest));
        lemma_unappend(s, i, seq!['-'], enc_nat(n) + rest);
        assert(s.subrange(i, s.len() as int)[0] == s[i]);
        assert(s[i] == '-');
        lemma_parse_nat(s, i + 1, n, rest);
        assert(n <= 0x8000_0000);
        assert((-(n as int)) as i32 == v);
    } else {
        let n = v as nat;
        assert(enc_nat(n).len() > 0);
        assert(s.subrange(i, s.len() as int)[0] == s[i]);
        assert(s[i] == enc_nat(n)[0]);
        lemma_dec_digits(n);
        if n == 0 {
            assert(s[i] == '0');
        } else {
            assert(is_digit(enc_nat(n)[0]));
        }
        assert(s[i] != '-');
        lemma_parse_nat(s, i, n, rest);
        assert(n <= 0x7fff_ffff);
    }
}

/// The first character of a suffix that starts with `a`.
proof fn lemma_first_char(s: Seq<char>, i: int, a: Seq<char>, rest: Seq<char>)
    requires
        0 <= i <= s.len(),
        s.subrange(i, s.len() as int) == a + rest,
        a.len() > 0,
    ensures
        i < s.len(),
        s[i] == a[0],
{
    assert(s.subrange(i, s.len() as int).len() == a.len() + rest.len());
    assert(s.subrange(i, s.len() as int)[0] == s[i]);
    assert((a + rest)[0] == a[0]);
}

/// A written optional string parses back to its value.
proof fn lemma_parse_opt_str(s: Seq<char>, i: int, o: Option<Seq<char>>, rest: Seq<char>)
    requires
        0 <= i <= s.len(),
        s.subrange(i, s.len() as int) == enc_opt_str(o) + rest,
    ensures
        parse_opt_str(s, i) == Some((o, i + enc_opt_str(o).len())),
        i + enc_opt_str(o).len() <= s.len(),
        s.subrange(i + enc_opt_str(o).len(), s.len() as int) == rest,
{
    reveal_strlit("None");
    reveal_strlit("Some(");
    reveal_strlit(")");
    match o {
        None => {
            lemma_parse_lit(s, i, "None"@, rest);
        },
        Some(q) => {
            let r1 = enc_str(q) + (")"@ + rest);
            assert(enc_opt_str(o) + rest =~= "Some("@ + r1);
            lemma_parse_lit(s, i, "Some("@, r1);
            let i1 = i + "Some("@.len();
            lemma_parse_str(s, i1, q, ")"@ + rest);
            let i2 = i1 + enc_str(q).len();
            lemma_parse_lit(s, i2, ")"@, rest);
            assert(("Some("@ + enc_str(q))[0] == 'S');
            assert(enc_opt_str(o)[0] == 'S');
            lemma_first_char(s, i, enc_opt_str(o), rest);
            lemma_lit_no_at(s, i, "None"@, 0);
        },
    }
}

/// A written date parses back to its value, when it is well-formed.
proof fn lemma_parse_date(s: Seq<char>, i: int, d: Date, rest: Seq<char>)
    requires
        0 <= i <= s.len(),
        s.subrange(i, s.len() as int) == enc_date(d) + rest,
        d.wf(),
    ensures
        parse_date(s, i) == Some((d, i + enc_date(d).len())),
        i + enc_date(d).len() <= s.len(),
        s.subrange(i + enc_date(d).len(), s.len() as int) == rest,
{
    reveal_strlit("(year:");
    reveal_strlit(",month:");
    reveal_strlit(",day:");
    reveal_strlit(")");
    let r5 = ")"@ + rest;
    let r4 = enc_i32(d.day) + r5;
    let r3 = ",day:"@ + r4;
    let r2 = enc_i32(d.month) + r3;
    let r1 = ",month:"@ + r2;
    let r0 = enc_i32(d.year) + r1;
    assert(enc_date(d) + rest =~= "(year:"@ + r0);
    lemma_parse_lit(s, i, "(year:"@, r0);
    let i1 = i + "(year:"@.len();
    assert(r1[0] == ',' && !is_digit(','));
    lemma_parse_i32(s, i1, d.year, r1);
    let i2 = i1 + enc_i32(d.year).len();
    lemma_parse_lit(s, i2, ",month:"@, r2);
    let i3 = i2 + ",month:"@.len();
    assert(r3[0] == ',' && !is_digit(','));
    lemma_parse_i32(s, i3, d.month, r3);
    let i4 = i3 + enc_i32(d.month).len();
    lemma_parse_lit(s, i4, ",day:"@, r4);
    let i5 = i4 + ",day:"@.len();
    assert(r5[0] == ')' && !is_digit(')'));
    lemma_parse_i32(s, i5, d.day, r5);
    let i6 = i5 + enc_i32(d.day).len();
    lemma_parse_lit(s, i6, ")"@, rest);
    assert(Date { year: d.year, month: d.month, day: d.day } == d);
}

/// A written optional date parses back to its value, when it is well-formed.
proof fn lemma_parse_opt_date(s: Seq<char>, i: int, o: Option<Date>, rest: Seq<char>)
    requires
        0 <= i <= s.len(),
        s.subrange(i, s.len() as int) == enc_opt_date(o) + rest,
        o matches Some(d) ==> d.wf(),
    ensures
        parse_opt_date(s, i) == Some((o, i + enc_opt_date(o).len())),
        i + enc_opt_date(o).len() <= s.len(),
        s.subrange(i + enc_opt_date(o).len(), s.len() as int) == rest,
{
    reveal_strlit("None");
    reveal_strlit("Some(");
    reveal_strlit(")");
    match o {
        None => {
            lemma_parse_lit(s, i, "None"@, rest);
        },
        Some(d) => {
            let r1 = enc_date(d) + (")"@ + rest);
            assert(enc_opt_date(o) + rest =~= "Some("@ + r1);
            lemma_parse_lit(s, i, "Some("@, r1);
            let i1 = i + "Some("@.len();
            lemma_parse_date(s, i1, d, ")"@ + rest);
            let i2 = i1 + enc_date(d).len();
            lemma_parse_lit(s, i2, ")"@, rest);
            assert(("Some("@ + enc_date(d))[0] == 'S');
            assert(enc_opt_date(o)[0] == 'S');
            lemma_first_char(s, i, enc_opt_date(o), rest);
            lemma_lit_no_at(s, i, "None"@, 0);
        },
    }
}

/// A written user record parses back to its value.
proof fn lemma_parse_user(s: Seq<char>, i: int, u: UserV, rest: Seq<char>)
    requires
        0 <= i <= s.len(),
        s.subrange(i, s.len() as int) == enc_user(u) + rest,
    ensures
        parse_user(s, i) == Some((u, i + enc_user(u).len())),
        i + enc_user(u).len() <= s.len(),
        s.subrange(i + enc_user(u).len(), s.len() as int) == rest,
{
    reveal_strlit("(id:");
    reveal_strlit(",username:");
    reveal_strlit(")");
    let r3 = ")"@ + rest;
    let r2 = enc_str(u.username) + r3;
    let r1 = ",username:"@ + r2;
    let r0 = enc_str(u.id) + r1;
    assert(enc_user(u) + rest =~= "(id:"@ + r0);
    lemma_parse_lit(s, i, "(id:"@, r0);
    let i1 = i + "(id:"@.len();
    lemma_parse_str(s, i1, u.id, r1);
    let i2 = i1 + enc_str(u.id).len();
    lemma_parse_lit(s, i2, ",username:"@, r2);
    let i3 = i2 + ",username:"@.len();
    lemma_parse_str(s, i3, u.username, r3);
    let i4 = i3 + enc_str(u.username).len();
    lemma_parse_lit(s, i4, ")"@, rest);
    assert(UserV { id: u.id, username: u.username } == u);
}

/// A written database-layer error parses back to its value.
proof fn lemma_parse_dberr(s: Seq<char>, i: int, e: DieselErrorV, rest: Seq<char>)
    requires
        0 <= i <= s.len(),
        s.subrange(i, s.len() as int) == enc_dberr(e) + rest,
    ensures
        parse_dberr(s, i) == Some((e, i + enc_dberr(e).len())),
        i + enc_dberr(e).len() <= s.len(),
        s.subrange(i + enc_dberr(e).len(), s.len() as int) == rest,
{
    reveal_strlit("NotFound");
    reveal_strlit("UniqueViolation(");
    reveal_strlit("Other(");
    reveal_strlit(",");
    reveal_strlit(")");
    lemma_first_char(s, i, enc_dberr(e), rest);
    match e {
        DieselErrorV::NotFound => {
            lemma_parse_lit(s, i, "NotFound"@, rest);
        },
        DieselErrorV::UniqueViolation(m, d, h) => {
            let r5 = ")"@ + rest;
            let r4 = enc_opt_str(h) + r5;
            let r3 = ","@ + r4;
            let r2 = enc_opt_str(d) + r3;
            let r1 = ","@ + r2;
            let r0 = enc_str(m) + r1;
            assert(enc_dberr(e) + rest =~= "UniqueViolation("@ + r0);
            assert(enc_dberr(e)[0] == 'U');
            lemma_lit_no_at(s, i, "NotFound"@, 0);
            lemma_parse_lit(s, i, "UniqueViolation("@, r0);
            let i1 = i + "UniqueViolation("@.len();
            lemma_parse_str(s, i1, m, r1);
            let i2 = i1 + enc_str(m).len();
            lemma_parse_lit(s, i2, ","@, r2);
            let i3 = i2 + ","@.len();
            lemma_parse_opt_str(s, i3, d, r3);
            let i4 = i3 + enc_opt_str(d).len();
            lemma_parse_lit(s, i4, ","@, r4);
            let i5 = i4 + ","@.len();
            lemma_parse_opt_str(s, i5, h, r5);
            let i6 = i5 + enc_opt_str(h).len();
            lemma_parse_lit(s, i6, ")"@, rest);
            assert(DieselErrorV::UniqueViolation(m, d, h) == e);
        },
        DieselErrorV::Other(m) => {
            let r1 = ")"@ + rest;
            let r0 = enc_str(m) + r1;
            assert(enc_dberr(e) + rest =~= "Other("@ + r0);
            assert(enc_dberr(e)[0] == 'O');
            lemma_lit_no_at(s, i, "NotFound"@, 0);
            lemma_lit_no_at(s, i, "UniqueViolation("@, 0);
            lemma_parse_lit(s, i, "Other("@, r0);
            let i1 = i + "Other("@.len();
            lemma_parse_str(s, i1, m, r1);
            let i2 = i1 + enc_str(m).len();
            lemma_parse_lit(s, i2, ")"@, rest);
        },
    }
}

/// A written business error parses back to its value.
proof fn lemma_parse_error(s: Seq<char>, i: int, e: ErrorV, rest: Seq<char>)
    requires
        0 <= i <= s.len(),
        s.subrange(i, s.len() as int) == enc_error(e) + rest,
    ensures
        parse_error(s, i) == Some((e, i + enc_error(e).len())),
        i + enc_error(e).len() <= s.len(),
        s.subrange(i + enc_error(e).len(), s.len() as int) == rest,
{
    reveal_strlit("DatabaseError(");
    reveal_strlit("InvalidPassword");
    reveal_strlit("HashingError(");
    reveal_strlit(")");
    lemma_first_char(s, i, enc_error(e), rest);
    match e {
        ErrorV::DatabaseError(d) => {
            let r1 = ")"@ + rest;
            let r0 = enc_dberr(d) + r1;
            assert(enc_error(e) + rest =~= "DatabaseError("@ + r0);
            lemma_parse_lit(s, i, "DatabaseError("@, r0);
            let i1 = i + "DatabaseError("@.len();
            lemma_parse_dberr(s, i1, d, r1);
            let i2 = i1 + enc_dberr(d).len();
            lemma_parse_lit(s, i2, ")"@, rest);
        },
        ErrorV::InvalidPassword => {
            assert(enc_error(e)[0] == 'I');
            lemma_lit_no_at(s, i, "DatabaseError("@, 0);
            lemma_parse_lit(s, i, "InvalidPassword"@, rest);
        },
        ErrorV::HashingError(m) => {
            let r1 = ")"@ + rest;
            let r0 = enc_str(m) + r1;
            assert(enc_error(e) + rest =~= "HashingError("@ + r0);
            assert(enc_error(e)[0] == 'H');
            lemma_lit_no_at(s, i, "DatabaseError("@, 0);
            lemma_lit_no_at(s, i, "InvalidPassword"@, 0);
            lemma_parse_lit(s, i, "HashingError("@, r0);
            let i1 = i + "HashingError("@.len();
            lemma_parse_str(s, i1, m, r1);
            let i2 = i1 + enc_str(m).len();
            lemma_parse_lit(s, i2, ")"@, rest);
        },
    }
}

/// A written completion record parses back to its value, when its date is
/// well-formed.
#[verifier::rlimit(100)]
proof fn lemma_parse_completion(s: Seq<char>, i: int, c: CompletionDataV, rest: Seq<char>)
    requires
        0 <= i <= s.len(),
        s.subrange(i, s.len() as int) == enc_completion(c) + rest,
        c.date matches Some(d) ==> d.wf(),
    ensures
        parse_completion(s, i) == Some((c, i + enc_completion(c).len())),
        i + enc_completion(c).len() <= s.len(),
        s.subrange(i + enc_completion(c).len(), s.len() as int) == rest,
{
    reveal(parse_completion);
    reveal_strlit("(achieved_mark:");
    reveal_strlit(",total_marks:");
    reveal_strlit(",date:");
    reveal_strlit(",comments:");
    reveal_strlit(")");
    let r7 = ")"@ + rest;
    let r6 = enc_opt_str(c.comments) + r7;
    let r5 = ",comments:"@ + r6;
    let r4 = enc_opt_date(c.date) + r5;
    let r3 = ",date:"@ + r4;
    let r2 = enc_i32(c.total_marks) + r3;
    let r1 = ",total_marks:"@ + r2;
    let r0 = enc_i32(c.achieved_mark) + r1;
    let x0 = "(achieved_mark:"@;
    let x1 = x0 + enc_i32(c.achieved_mark);
    let x2 = x1 + ",total_marks:"@;
    let x3 = x2 + enc_i32(c.total_marks);
    let x4 = x3 + ",date:"@;
    let x5 = x4 + enc_opt_date(c.date);
    let x6 = x5 + ",comments:"@;
    let x7 = x6 + enc_opt_str(c.comments);
    assert(enc_completion(c) == x7 + ")"@);
    lemma_peel(s, i, x7, ")"@, rest);
    lemma_peel(s, i, x6, enc_opt_str(c.comments), r7);
    lemma_peel(s, i, x5, ",comments:"@, r6);
    lemma_peel(s, i, x4, enc_opt_date(c.date), r5);
    lemma_peel(s, i, x3, ",date:"@, r4);
    lemma_peel(s, i, x2, enc_i32(c.total_marks), r3);
    lemma_peel(s, i, x1, ",total_marks:"@, r2);
    lemma_peel(s, i, x0, enc_i32(c.achieved_mark), r1);
    lemma_parse_lit(s, i, "(achieved_mark:"@, r0);
    let i1 = i + "(achieved_mark:"@.len();
    assert(r1[0] == ',' && !is_digit(','));
    lemma_parse_i32(s, i1, c.achieved_mark, r1);
    let i2 = i1 + enc_i32(c.achieved_mark).len();
    lemma_parse_lit(s, i2, ",total_marks:"@, r2);
    let i3 = i2 + ",total_marks:"@.len();
    assert(r3[0] == ',' && !is_digit(','));
    lemma_parse_i32(s, i3, c.total_marks, r3);
    let i4 = i3 + enc_i32(c.total_marks).len();
    lemma_parse_lit(s, i4, ",date:"@, r4);
    let i5 = i4 + ",date:"@.len();
    lemma_parse_opt_date(s, i5, c.date, r5);
    let i6 = i5 + enc_opt_date(c.date).len();
    lemma_parse_lit(s, i6, ",comments:"@, r6);
    let i7 = i6 + ",comments:"@.len();
    lemma_parse_opt_str(s, i7, c.comments, r7);
    let i8 = i7 + enc_opt_str(c.comments).len();
    lemma_parse_lit(s, i8, ")"@, rest);
    assert(CompletionDataV {
        achieved_mark: c.achieved_mark,
        total_marks: c.total_marks,
        date: c.date,
        comments: c.comments,
    } == c);
}

/// Re-associating one concatenation at the head of a suffix.
proof fn lemma_peel(s: Seq<char>, i: int, a: Seq<char>, b: Seq<char>, c: Seq<char>)
    requires
        0 <= i <= s.len(),
        s.subrange(i, s.len() as int) == (a + b) + c,
    ensures
        s.subrange(i, s.len() as int) == a + (b + c),
{
    assert((a + b) + c =~= a + (b + c));
}

/// A written test record parses back to its value.
#[verifier::rlimit(100)]
proof fn lemma_parse_testdata(s: Seq<char>, i: int, t: TestDataV, rest: Seq<char>)
    requires
        0 <= i <= s.len(),
        s.subrange(i, s.len() as int) == enc_testdata(t) + rest,
    ensures
        parse_testdata(s, i) == Some((t, i + enc_testdata(t).len())),
        i + enc_testdata(t).len() <= s.len(),
        s.subrange(i + enc_testdata(t).len(), s.len() as int) == rest,
{
    reveal(parse_testdata);
    reveal_strlit("(subject:");
    reveal_strlit(",topic:");
    reveal_strlit(",date_or_id:");
    reveal_strlit(",qualification_level:");
    reveal_strlit(",exam_board:");
    reveal_strlit(",paper_link:");
    reveal_strlit(",mark_scheme_link:");
    reveal_strlit(",comments:");
    reveal_strlit(")");
    let r16 = ")"@ + rest;
    let r15 = enc_opt_str(t.comments) + r16;
    let r14 = ",comments:"@ + r15;
    let r13 = enc_opt_str(t.mark_scheme_link) + r14;
    let r12 = ",mark_scheme_link:"@ + r13;
    let r11 = enc_opt_str(t.paper_link) + r12;
    let r10 = ",paper_link:"@ + r11;
    let r9 = enc_opt_str(t.exam_board) + r10;
    let r8 = ",exam_board:"@ + r9;
    let r7 = enc_opt_str(t.qualification_level) + r8;
    let r6 = ",qualification_level:"@ + r7;
    let r5 = enc_str(t.date_or_id) + r6;
    let r4 = ",date_or_id:"@ + r5;
    let r3 = enc_opt_str(t.topic) + r4;
    let r2 = ",topic:"@ + r3;
    let r1 = enc_str(t.subject) + r2;
    let x0 = "(subject:"@;
    let x1 = x0 + enc_str(t.subject);
    let x2 = x1 + ",topic:"@;
    let x3 = x2 + enc_opt_str(t.topic);
    let x4 = x3 + ",date_or_id:"@;
    let x5 = x4 + enc_str(t.date_or_id);
    let x6 = x5 + ",qualification_level:"@;
    let x7 = x6 + enc_opt_str(t.qualification_level);
    let x8 = x7 + ",exam_board:"@;
    let x9 = x8 + enc_opt_str(t.exam_board);
    let x10 = x9 + ",paper_link:"@;
    let x11 = x10 + enc_opt_str(t.paper_link);
    let x12 = x11 + ",mark_scheme_link:"@;
    let x13 = x12 + enc_opt_str(t.mark_scheme_link);
    let x14 = x13 + ",comments:"@;
    let x15 = x14 + enc_opt_str(t.comments);
    assert(enc_testdata(t) == x15 + ")"@);
    lemma_peel(s, i, x15, ")"@, rest);
    lemma_peel(s, i, x14, enc_opt_str(t.comments), r16);
    lemma_peel(s, i, x13, ",comments:"@, r15);
    lemma_peel(s, i, x12, enc_opt_str(t.mark_scheme_link), r14);
    lemma_peel(s, i, x11, ",mark_scheme_link:"@, r13);
    lemma_peel(s, i, x10, enc_opt_str(t.paper_link), r12);
    lemma_peel(s, i, x9, ",paper_link:"@, r11);
    lemma_peel(s, i, x8, enc_opt_str(t.exam_board), r10);
    lemma_peel(s, i, x7, ",exam_board:"@, r9);
    lemma_peel(s, i, x6, enc_opt_str(t.qualification_level), r8);
    lemma_peel(s, i, x5, ",qualification_level:"@, r7);
    lemma_peel(s, i, x4, enc_str(t.date_or_id), r6);
    lemma_peel(s, i, x3, ",date_or_id:"@, r5);
    lemma_peel(s, i, x2, enc_opt_str(t.topic), r4);
    lemma_peel(s, i, x1, ",topic:"@, r3);
    lemma_peel(s, i, x0, enc_str(t.subject), r2);
    lemma_parse_lit(s, i, "(subject:"@, r1);
    let i1 = i + "(subject:"@.len();
    lemma_parse_str(s, i1, t.subject, r2);
    let i2 = i1 + enc_str(t.subject).len();
    lemma_parse_lit(s, i2, ",topic:"@, r3);
    let i3 = i2 + ",topic:"@.len();
    lemma_parse_opt_str(s, i3, t.topic, r4);
    let i4 = i3 + enc_opt_str(t.topic).len();
    lemma_parse_lit(s, i4, ",date_or_id:"@, r5);
    let i5 = i4 + ",date_or_id:"@.len();
    lemma_parse_str(s, i5, t.date_or_id, r6);
    let i6 = i5 + enc_str(t.date_or_id).len();
    lemma_parse_lit(s, i6, ",qualification_level:"@, r7);
    let i7 = i6 + ",qualification_level:"@.len();
    lemma_parse_opt_str(s, i7, t.qualification_level, r8);
    let i8 = i7 + enc_opt_str(t.qualification_level).len();
    lemma_parse_lit(s, i8, ",exam_board:"@, r9);
    let i9 = i8 + ",exam_board:"@.len();
    lemma_parse_opt_str(s, i9, t.exam_board, r10);
    let i10 = i9 + enc_opt_str(t.exam_board).len();
    lemma_parse_lit(s, i10, ",paper_link:"@, r11);
    let i11 = i10 + ",paper_link:"@.len();
    lemma_parse_opt_str(s, i11, t.paper_link, r12);
    let i12 = i11 + enc_opt_str(t.paper_link).len();
    lemma_parse_lit(s, i12, ",mark_scheme_link:"@, r13);
    let i13 = i12 + ",mark_scheme_link:"@.len();
    lemma_parse_opt_str(s, i13, t.mark_scheme_link, r14);
    let i14 = i13 + enc_opt_str(t.mark_scheme_link).len();
    lemma_parse_lit(s, i14, ",comments:"@, r15);
    let i15 = i14 + ",comments:"@.len();
    lemma_parse_opt_str(s, i15, t.comments, r16);
    let i16 = i15 + enc_opt_str(t.comments).len();
    lemma_parse_lit(s, i16, ")"@, rest);
    assert(TestDataV {
        subject: t.subject,
        topic: t.topic,
        date_or_id: t.date_or_id,
        qualification_level: t.qualification_level,
        exam_board: t.exam_board,
        paper_link: t.paper_link,
        mark_scheme_link: t.mark_scheme_link,
        comments: t.comments,
    } == t);
}

/// A written completion-list tail parses back to its elements.
#[verifier::rlimit(100)]
#[verifier::spinoff_prover]
proof fn lemma_parse_completions_tail(
    s: Seq<char>,
    i: int,
    cs: Seq<CompletionDataV>,
    rest: Seq<char>,
)
    requires
        0 <= i <= s.len(),
        s.subrange(i, s.len() as int) == enc_completions_tail(cs) + rest,
        completions_wf(cs),
    ensures
        parse_completions_tail(s, i) == Some((cs, i + enc_completions_tail(cs).len())),
        i + enc_completions_tail(cs).len() <= s.len(),
        s.subrange(i + enc_completions_tail(cs).len(), s.len() as int) == rest,
    decreases cs.len(),
{
    reveal_strlit("]");
    reveal_strlit(",");
    reveal_strlit("(achieved_mark:");
    if cs.len() == 0 {
        lemma_parse_lit(s, i, "]"@, rest);
    } else {
        let c0 = cs[0];
        let cs1 = cs.drop_first();
        let tail = enc_completions_tail(cs1);
        let x1 = ","@ + enc_completion(c0);
        assert(enc_completions_tail(cs) == x1 + tail);
        lemma_peel(s, i, x1, tail, rest);
        lemma_peel(s, i, ","@, enc_completion(c0), tail + rest);
        lemma_first_char(s, i, ","@, enc_completion(c0) + (tail + rest));
        lemma_lit_no_at(s, i, "]"@, 0);
        lemma_parse_lit(s, i, ","@, enc_completion(c0) + (tail + rest));
        let i1 = i + 1;
        assert(completions_wf(cs1)) by {
            assert(forall|k: int| 0 <= k < cs1.len() ==> cs1[k] == cs[k + 1]);
        }
        assert(c0.date matches Some(d) ==> d.wf());
        lemma_parse_completion(s, i1, c0, tail + rest);
        let i2 = i1 + enc_completion(c0).len();
        assert(enc_completion(c0).len() >= 1) by {
            assert(enc_completion(c0)[0] == "(achieved_mark:"@[0]);
        }
        lemma_parse_completions_tail(s, i2, cs1, rest);
        assert(seq![c0] + cs1 =~= cs);
    }
}

/// A written completion list parses back to its elements.
#[verifier::rlimit(100)]
#[verifier::spinoff_prover]
proof fn lemma_parse_completions(s: Seq<char>, i: int, cs: Seq<CompletionDataV>, rest: Seq<char>)
    requires
        0 <= i <= s.len(),
        s.subrange(i, s.len() as int) == enc_completions(cs) + rest,
        completions_wf(cs),
    ensures
        parse_completions(s, i) == Some((cs, i + enc_completions(cs).len())),
        i + enc_completions(cs).len() <= s.len(),
        s.subrange(i + enc_completions(cs).len(), s.len() as int) == rest,
{
    reveal_strlit("[]");
    reveal_strlit("[");
    reveal_strlit("(achieved_mark:");
    if cs.len() == 0 {
        lemma_parse_lit(s, i, "[]"@, rest);
    } else {
        let c0 = cs[0];
        let cs1 = cs.drop_first();
        let tail = enc_completions_tail(cs1);
        let x1 = "["@ + enc_completion(c0);
        assert(enc_completions(cs) == x1 + tail);
        lemma_peel(s, i, x1, tail, rest);
        lemma_peel(s, i, "["@, enc_completion(c0), tail + rest);
        assert(enc_completion(c0).len() >= 1);
        assert(enc_completion(c0)[0] == '(') by {
            assert(enc_completion(c0)[0] == "(achieved_mark:"@[0]);
        }
        assert(s.subrange(i, s.len() as int).len() == 1 + enc_completion(c0).len() + (tail
            + rest).len());
        assert(s.subrange(i, s.len() as int)[1] == s[i + 1]);
        assert(("["@ + (enc_completion(c0) + (tail + rest)))[1] == '(');
        lemma_lit_no_at(s, i, "[]"@, 1);
        lemma_parse_lit(s, i, "["@, enc_completion(c0) + (tail + rest));
        let i1 = i + 1;
        assert(completions_wf(cs1)) by {
            assert(forall|k: int| 0 <= k < cs1.len() ==> cs1[k] == cs[k + 1]);
        }
        assert(c0.date matches Some(d) ==> d.wf());
        lemma_parse_completion(s, i1, c0, tail + rest);
        let i2 = i1 + enc_completion(c0).len();
        assert(enc_completion(c0).len() >= 1);
        lemma_parse_completions_tail(s, i2, cs1, rest);
        assert(seq![c0] + cs1 =~= cs);
    }
}

/// A written test with its completions parses back to its value.
#[verifier::rlimit(100)]
proof fn lemma_parse_tac(s: Seq<char>, i: int, t: TestAndCompletionsV, rest: Seq<char>)
    requires
        0 <= i <= s.len(),
        s.subrange(i, s.len() as int) == enc_tac(t) + rest,
        completions_wf(t.1),
    ensures
        parse_tac(s, i) == Some((t, i + enc_tac(t).len())),
        i + enc_tac(t).len() <= s.len(),
        s.subrange(i + enc_tac(t).len(), s.len() as int) == rest,
{
    reveal_strlit("(");
    reveal_strlit(",");
    reveal_strlit(")");
    let r3 = ")"@ + rest;
    let r2 = enc_completions(t.1) + r3;
    let r1 = ","@ + r2;
    let r0 = enc_testdata(t.0) + r1;
    let x0 = "("@;
    let x1 = x0 + enc_testdata(t.0);
    let x2 = x1 + ","@;
    let x3 = x2 + enc_completions(t.1);
    assert(enc_tac(t) == x3 + ")"@);
    lemma_peel(s, i, x3, ")"@, rest);
    lemma_peel(s, i, x2, enc_completions(t.1), r3);
    lemma_peel(s, i, x1, ","@, r2);
    lemma_peel(s, i, x0, enc_testdata(t.0), r1);
    lemma_parse_lit(s, i, "("@, r0);
    let i1 = i + 1;
    lemma_parse_testdata(s, i1, t.0, r1);
    let i2 = i1 + enc_testdata(t.0).len();
    lemma_parse_lit(s, i2, ","@, r2);
    let i3 = i2 + 1;
    lemma_parse_completions(s, i3, t.1, r3);
    let i4 = i3 + enc_completions(t.1).len();
    lemma_parse_lit(s, i4, ")"@, rest);
    assert((t.0, t.1) == t);
}

/// A written list tail of tests with completions parses back to its
/// elements.
#[verifier::rlimit(100)]
#[verifier::spinoff_prover]
proof fn lemma_parse_tacs_tail(s: Seq<char>, i: int, ts: Seq<TestAndCompletionsV>, rest: Seq<char>)
    requires
        0 <= i <= s.len(),
        s.subrange(i, s.len() as int) == enc_tacs_tail(ts) + rest,
        tacs_wf(ts),
    ensures
        parse_tacs_tail(s, i) == Some((ts, i + enc_tacs_tail(ts).len())),
        i + enc_tacs_tail(ts).len() <= s.len(),
        s.subrange(i + enc_tacs_tail(ts).len(), s.len() as int) == rest,
    decreases ts.len(),
{
    reveal_strlit("]");
    reveal_strlit(",");
    reveal_strlit("(");
    if ts.len() == 0 {
        lemma_parse_lit(s, i, "]"@, rest);
    } else {
        let t0 = ts[0];
        let ts1 = ts.drop_first();
        let tail = enc_tacs_tail(ts1);
        let x1 = ","@ + enc_tac(t0);
        assert(enc_tacs_tail(ts) == x1 + tail);
        lemma_peel(s, i, x1, tail, rest);
        lemma_peel(s, i, ","@, enc_tac(t0), tail + rest);
        lemma_first_char(s, i, ","@, enc_tac(t0) + (tail + rest));
        lemma_lit_no_at(s, i, "]"@, 0);
        lemma_parse_lit(s, i, ","@, enc_tac(t0) + (tail + rest));
        let i1 = i + 1;
        assert(tacs_wf(ts1)) by {
            assert(forall|k: int| 0 <= k < ts1.len() ==> ts1[k] == ts[k + 1]);
        }
        assert(completions_wf(t0.1));
        lemma_parse_tac(s, i1, t0, tail + rest);
        let i2 = i1 + enc_tac(t0).len();
        assert(enc_tac(t0).len() >= 1) by {
            assert(enc_tac(t0)[0] == "("@[0]);
        }
        lemma_parse_tacs_tail(s, i2, ts1, rest);
        assert(seq![t0] + ts1 =~= ts);
    }
}

/// A written list of tests with completions parses back to its elements.
#[verifier::rlimit(100)]
#[verifier::spinoff_prover]
proof fn lemma_parse_tacs(s: Seq<char>, i: int, ts: Seq<TestAndCompletionsV>, rest: Seq<char>)
    requires
        0 <= i <= s.len(),
        s.subrange(i, s.len() as int) == enc_tacs(ts) + rest,
        tacs_wf(ts),
    ensures
        parse_tacs(s, i) == Some((ts, i + enc_tacs(ts).len())),
        i + enc_tacs(ts).len() <= s.len(),
        s.subrange(i + enc_tacs(ts).len(), s.len() as int) == rest,
{
    reveal_strlit("[]");
    reveal_strlit("[");
    reveal_strlit("(");
    if ts.len() == 0 {
        lemma_parse_lit(s, i, "[]"@, rest);
    } else {
        let t0 = ts[0];
        let ts1 = ts.drop_first();
        let tail = enc_tacs_tail(ts1);
        let x1 = "["@ + enc_tac(t0);
        assert(enc_tacs(ts) == x1 + tail);
        lemma_peel(s, i, x1, tail, rest);
        lemma_peel(s, i, "["@, enc_tac(t0), tail + rest);
        assert(enc_tac(t0).len() >= 1);
        assert(enc_tac(t0)[0] == '(') by {
            assert(enc_tac(t0)[0] == "("@[0]);
        }
        assert(s.subrange(i, s.len() as int).len() == 1 + enc_tac(t0).len() + (tail + rest).len());
        assert(s.subrange(i, s.len() as int)[1] == s[i + 1]);
        assert(("["@ + (enc_tac(t0) + (tail + rest)))[1] == '(');
        lemma_lit_no_at(s, i, "[]"@, 1);
        lemma_parse_lit(s, i, "["@, enc_tac(t0) + (tail + rest));
        let i1 = i + 1;
        assert(tacs_wf(ts1)) by {
            assert(forall|k: int| 0 <= k < ts1.len() ==> ts1[k] == ts[k + 1]);
        }
        assert(completions_wf(t0.1));
        lemma_parse_tac(s, i1, t0, tail + rest);
        let i2 = i1 + enc_tac(t0).len();
        assert(enc_tac(t0).len() >= 1);
        lemma_parse_tacs_tail(s, i2, ts1, rest);
        assert(seq![t0] + ts1 =~= ts);
    }
}

/// A written user result parses back to its value.
#[verifier::rlimit(100)]
proof fn lemma_parse_result_user(
    s: Seq<char>,
    i: int,
    r: Result<UserV, ErrorV>,
    rest: Seq<char>,
)
    requires
        0 <= i <= s.len(),
        s.subrange(i, s.len() as int) == enc_result_user(r) + rest,
    ensures
        parse_result_user(s, i) == Some((r, i + enc_result_user(r).len())),
        i + enc_result_user(r).len() <= s.len(),
        s.subrange(i + enc_result_user(r).len(), s.len() as int) == rest,
{
    reveal_strlit("Ok(");
    reveal_strlit("Err(");
    reveal_strlit(")");
    lemma_first_char(s, i, enc_result_user(r), rest);
    match r {
        Ok(u) => {
            let r1 = ")"@ + rest;
            let r0 = enc_user(u) + r1;
            assert(enc_result_user(r) + rest =~= "Ok("@ + r0);
            lemma_parse_lit(s, i, "Ok("@, r0);
            let i1 = i + "Ok("@.len();
            lemma_parse_user(s, i1, u, r1);
            let i2 = i1 + enc_user(u).len();
            lemma_parse_lit(s, i2, ")"@, rest);
        },
        Err(e) => {
            let r1 = ")"@ + rest;
            let r0 = enc_error(e) + r1;
            assert(enc_result_user(r) + rest =~= "Err("@ + r0);
            assert(enc_result_user(r)[0] == 'E');
            lemma_lit_no_at(s, i, "Ok("@, 0);
            lemma_parse_lit(s, i, "Err("@, r0);
            let i1 = i + "Err("@.len();
            lemma_parse_error(s, i1, e, r1);
            let i2 = i1 + enc_error(e).len();
            lemma_parse_lit(s, i2, ")"@, rest);
        },
    }
}

/// A written tests-and-completions result parses back to its value.
#[verifier::rlimit(100)]
proof fn lemma_parse_result_tacs(
    s: Seq<char>,
    i: int,
    r: Result<Seq<TestAndCompletionsV>, ErrorV>,
    rest: Seq<char>,
)
    requires
        0 <= i <= s.len(),
        s.subrange(i, s.len() as int) == enc_result_tacs(r) + rest,
        r matches Ok(ts) ==> tacs_wf(ts),
    ensures
        parse_result_tacs(s, i) == Some((r, i + enc_result_tacs(r).len())),
        i + enc_result_tacs(r).len() <= s.len(),
        s.subrange(i + enc_result_tacs(r).len(), s.len() as int) == rest,
{
    reveal_strlit("Ok(");
    reveal_strlit("Err(");
    reveal_strlit(")");
    lemma_first_char(s, i, enc_result_tacs(r), rest);
    match r {
        Ok(ts) => {
            let r1 = ")"@ + rest;
            let r0 = enc_tacs(ts) + r1;
            assert(enc_result_tacs(r) + rest =~= "Ok("@ + r0);
            lemma_parse_lit(s, i, "Ok("@, r0);
            let i1 = i + "Ok("@.len();
            lemma_parse_tacs(s, i1, ts, r1);
            let i2 = i1 + enc_tacs(ts).len();
            lemma_parse_lit(s, i2, ")"@, rest);
        },
        Err(e) => {
            let r1 = ")"@ + rest;
            let r0 = enc_error(e) + r1;
            assert(enc_result_tacs(r) + rest =~= "Err("@ + r0);
            assert(enc_result_tacs(r)[0] == 'E');
            lemma_lit_no_at(s, i, "Ok("@, 0);
            lemma_parse_lit(s, i, "Err("@, r0);
            let i1 = i + "Err("@.len();
            lemma_parse_error(s, i1, e, r1);
            let i2 = i1 + enc_error(e).len();
            lemma_parse_lit(s, i2, ")"@, rest);
        },
    }
}

/// A written request envelope parses back to its value.
#[verifier::rlimit(100)]
proof fn lemma_parse_c2s(s: Seq<char>, i: int, m: ClientToServerMsgV, rest: Seq<char>)
    requires
        0 <= i <= s.len(),
        s.subrange(i, s.len() as int) == enc_c2s(m) + rest,
    ensures
        parse_c2s(s, i) == Some((m, i + enc_c2s(m).len())),
        i + enc_c2s(m).len() <= s.len(),
        s.subrange(i + enc_c2s(m).len(), s.len() as int) == rest,
{
    reveal_strlit("Authenticate(username:");
    reveal_strlit("CreateUser(username:");
    reveal_strlit("GetTestsAndCompletions(user_id:");
    reveal_strlit(",password:");
    reveal_strlit(")");
    lemma_first_char(s, i, enc_c2s(m), rest);
    match m {
        ClientToServerMsgV::Authenticate { username, password } => {
            let r3 = ")"@ + rest;
            let r2 = enc_str(password) + r3;
            let r1 = ",password:"@ + r2;
            let r0 = enc_str(username) + r1;
            let x0 = "Authenticate(username:"@;
            let x1 = x0 + enc_str(username);
            let x2 = x1 + ",password:"@;
            let x3 = x2 + enc_str(password);
            assert(enc_c2s(m) == x3 + ")"@);
            lemma_peel(s, i, x3, ")"@, rest);
            lemma_peel(s, i, x2, enc_str(password), r3);
            lemma_peel(s, i, x1, ",password:"@, r2);
            lemma_peel(s, i, x0, enc_str(username), r1);
            lemma_parse_lit(s, i, "Authenticate(username:"@, r0);
            let i1 = i + "Authenticate(username:"@.len();
            lemma_parse_str(s, i1, username, r1);
            let i2 = i1 + enc_str(username).len();
            lemma_parse_lit(s, i2, ",password:"@, r2);
            let i3 = i2 + ",password:"@.len();
            lemma_parse_str(s, i3, password, r3);
            let i4 = i3 + enc_str(password).len();
            lemma_parse_lit(s, i4, ")"@, rest);
            assert(ClientToServerMsgV::Authenticate { username, password } == m);
        },
        ClientToServerMsgV::CreateUser { username, password } => {
            let r3 = ")"@ + rest;
            let r2 = enc_str(password) + r3;
            let r1 = ",password:"@ + r2;
            let r0 = enc_str(username) + r1;
            let x0 = "CreateUser(username:"@;
            let x1 = x0 + enc_str(username);
            let x2 = x1 + ",password:"@;
            let x3 = x2 + enc_str(password);
            assert(enc_c2s(m) == x3 + ")"@);
            lemma_peel(s, i, x3, ")"@, rest);
            lemma_peel(s, i, x2, enc_str(password), r3);
            lemma_peel(s, i, x1, ",password:"@, r2);
            lemma_peel(s, i, x0, enc_str(username), r1);
            assert(enc_c2s(m)[0] == 'C');
            lemma_lit_no_at(s, i, "Authenticate(username:"@, 0);
            lemma_parse_lit(s, i, "CreateUser(username:"@, r0);
            let i1 = i + "CreateUser(username:"@.len();
            lemma_parse_str(s, i1, username, r1);
            let i2 = i1 + enc_str(username).len();
            lemma_parse_lit(s, i2, ",password:"@, r2);
            let i3 = i2 + ",password:"@.len();
            lemma_parse_str(s, i3, password, r3);
            let i4 = i3 + enc_str(password).len();
            lemma_parse_lit(s, i4, ")"@, rest);
            assert(ClientToServerMsgV::CreateUser { username, password } == m);
        },
        ClientToServerMsgV::GetTestsAndCompletions { user_id } => {
            let r1 = ")"@ + rest;
            let r0 = enc_str(user_id) + r1;
            let x0 = "GetTestsAndCompletions(user_id:"@;
            let x1 = x0 + enc_str(user_id);
            assert(enc_c2s(m) == x1 + ")"@);
            lemma_peel(s, i, x1, ")"@, rest);
            lemma_peel(s, i, x0, enc_str(user_id), r1);
            assert(enc_c2s(m)[0] == 'G');
            lemma_lit_no_at(s, i, "Authenticate(username:"@, 0);
            lemma_lit_no_at(s, i, "CreateUser(username:"@, 0);
            lemma_parse_lit(s, i, "GetTestsAndCompletions(user_id:"@, r0);
            let i1 = i + "GetTestsAndCompletions(user_id:"@.len();
            lemma_parse_str(s, i1, user_id, r1);
            let i2 = i1 + enc_str(user_id).len();
            lemma_parse_lit(s, i2, ")"@, rest);
            assert(ClientToServerMsgV::GetTestsAndCompletions { user_id } == m);
        },
    }
}

/// A written response envelope parses back to its value.
#[verifier::rlimit(100)]
proof fn lemma_parse_s2c(s: Seq<char>, i: int, m: ServerToClientMsgV, rest: Seq<char>)
    requires
        0 <= i <= s.len(),
        s.subrange(i, s.len() as int) == enc_s2c(m) + rest,
        m.wf(),
    ensures
        parse_s2c(s, i) == Some((m, i + enc_s2c(m).len())),
        i + enc_s2c(m).len() <= s.len(),
        s.subrange(i + enc_s2c(m).len(), s.len() as int) == rest,
{
    reveal_strlit("AuthenticationResponse(");
    reveal_strlit("TestsAndCompletionsForUser(");
    reveal_strlit(")");
    lemma_first_char(s, i, enc_s2c(m), rest);
    match m {
        ServerToClientMsgV::AuthenticationResponse(r) => {
            let r1 = ")"@ + rest;
            let r0 = enc_result_user(r) + r1;
            assert(enc_s2c(m) + rest =~= "AuthenticationResponse("@ + r0);
            lemma_parse_lit(s, i, "AuthenticationResponse("@, r0);
            let i1 = i + "AuthenticationResponse("@.len();
            lemma_parse_result_user(s, i1, r, r1);
            let i2 = i1 + enc_result_user(r).len();
            lemma_parse_lit(s, i2, ")"@, rest);
        },
        ServerToClientMsgV::TestsAndCompletionsForUser(r) => {
            let r1 = ")"@ + rest;
            let r0 = enc_result_tacs(r) + r1;
            assert(enc_s2c(m) + rest =~= "TestsAndCompletionsForUser("@ + r0);
            assert(enc_s2c(m)[0] == 'T');
            lemma_lit_no_at(s, i, "AuthenticationResponse("@, 0);
            lemma_parse_lit(s, i, "TestsAndCompletionsForUser("@, r0);
            let i1 = i + "TestsAndCompletionsForUser("@.len();
            lemma_parse_result_tacs(s, i1, r, r1);
            let i2 = i1 + enc_result_tacs(r).len();
            lemma_parse_lit(s, i2, ")"@, rest);
        },
    }
}

/// Law: decoding an encoded request envelope yields the original envelope,
/// for every variant and all field values.
pub proof fn lemma_roundtrip_client_msg(m: ClientToServerMsgV)
    ensures
        dec_c2s(enc_c2s(m)) == Some(m),
{
    let s = enc_c2s(m);
    assert(s.subrange(0, s.len() as int) =~= s + Seq::<char>::empty());
    lemma_parse_c2s(s, 0, m, Seq::empty());
}

/// Law: decoding an encoded response envelope yields the original envelope,
/// for every variant, every success payload, and every error arm, whenever
/// the dates it carries are well-formed.
pub proof fn lemma_roundtrip_server_msg(m: ServerToClientMsgV)
    requires
        m.wf(),
    ensures
        dec_s2c(enc_s2c(m)) == Some(m),
{
    let s = enc_s2c(m);
    assert(s.subrange(0, s.len() as int) =~= s + Seq::<char>::empty());
    lemma_parse_s2c(s, 0, m, Seq::empty());
}


/// Law: decoding a persisted user record yields the original record, for
/// all field values.
pub proof fn lemma_roundtrip_user(u: UserV)
    ensures
        crate::codec::dec_user(enc_user(u)) == Some(u),
{
    let s = enc_user(u);
    assert(s.subrange(0, s.len() as int) =~= s + Seq::<char>::empty());
    lemma_parse_user(s, 0, u, Seq::empty());
}

/// The decimal writing of a number reads back to its value.
pub proof fn lemma_enc_nat_value(n: nat)
    ensures
        val_of_digits(enc_nat(n)) == n,
{
    lemma_dec_digits(n);
    if n == 0 {
        assert(enc_nat(0) == seq!['0']);
        assert(seq!['0'].drop_last() =~= Seq::<char>::empty());
        assert(val_of_digits(seq!['0']) == 0);
    }
}


} // verus!
