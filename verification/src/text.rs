//! Text primitives shared by the command encoder and decoder: decimal
//! rendering of `u8` values, strict and lenient decimal parsing, whitespace
//! tokenization, comma splitting and trimming, together with the
//! specification-level models of each.

use vstd::prelude::*;

verus! {

use vstd::string::*;

/// The whitespace characters the tokenizer recognises. Command strings built
/// by this library only ever contain plain spaces.
pub open spec fn is_ws_char(c: char) -> bool {
    c == ' ' || c == '\t' || c == '\n' || c == '\r'
}

/// Numeric value of a decimal digit character; 10 marks a non-digit.
pub open spec fn digit_val(c: char) -> nat {
    if c == '0' {
        0
    } else if c == '1' {
        1
    } else if c == '2' {
        2
    } else if c == '3' {
        3
    } else if c == '4' {
        4
    } else if c == '5' {
        5
    } else if c == '6' {
        6
    } else if c == '7' {
        7
    } else if c == '8' {
        8
    } else if c == '9' {
        9
    } else {
        10
    }
}

pub open spec fn is_digit_char(c: char) -> bool {
    digit_val(c) < 10
}

/// The decimal digit character for a value below ten.
pub open spec fn digit_char(d: nat) -> char {
    if d == 0 {
        '0'
    } else if d == 1 {
        '1'
    } else if d == 2 {
        '2'
    } else if d == 3 {
        '3'
    } else if d == 4 {
        '4'
    } else if d == 5 {
        '5'
    } else if d == 6 {
        '6'
    } else if d == 7 {
        '7'
    } else if d == 8 {
        '8'
    } else {
        '9'
    }
}

/// Decimal rendering of a natural number, without leading zeroes.
pub open spec fn dec_rep(n: nat) -> Seq<char>
    decreases n,
{
    if n < 10 {
        seq![digit_char(n)]
    } else {
        dec_rep(n / 10).push(digit_char(n % 10))
    }
}

pub proof fn lemma_dec_rep_digits(n: nat)
    ensures
        dec_rep(n).len() >= 1,
        forall|i: int| 0 <= i < dec_rep(n).len() ==> is_digit_char(#[trigger] dec_rep(n)[i]),
    decreases n,
{
    if n >= 10 {
        lemma_dec_rep_digits(n / 10);
    }
}

fn digit_str(d: u8) -> (r: &'static str)
    requires
        d < 10,
    ensures
        r@ == seq![digit_char(d as nat)],
{
    proof {
        reveal_strlit("0");
        reveal_strlit("1");
        reveal_strlit("2");
        reveal_strlit("3");
        reveal_strlit("4");
        reveal_strlit("5");
        reveal_strlit("6");
        reveal_strlit("7");
        reveal_strlit("8");
        reveal_strlit("9");
    }
    let r = match d {
        0 => "0",
        1 => "1",
        2 => "2",
        3 => "3",
        4 => "4",
        5 => "5",
        6 => "6",
        7 => "7",
        8 => "8",
        _ => "9",
    };
    proof {
        assert(r@ =~= seq![digit_char(d as nat)]);
    }
    r
}

/// Renders a byte in decimal, exactly as the standard formatter would.
pub fn u8_to_decimal(n: u8) -> (r: String)
    ensures
        r@ == dec_rep(n as nat),
{
    if n < 10 {
        let r = digit_str(n).to_owned();
        proof {
            assert(r@ =~= dec_rep(n as nat));
        }
        r
    } else if n < 100 {
        let mut r = digit_str(n / 10).to_owned();
        r.append(digit_str(n % 10));
        proof {
            assert(dec_rep((n / 10) as nat) =~= seq![digit_char((n / 10) as nat)]);
            assert(dec_rep(n as nat) =~= dec_rep((n / 10) as nat).push(digit_char((n % 10) as nat)));
            assert(r@ =~= dec_rep(n as nat));
        }
        r
    } else {
        let mut r = digit_str(n / 100).to_owned();
        r.append(digit_str((n / 10) % 10));
        r.append(digit_str(n % 10));
        proof {
            assert(n / 10 >= 10);
            assert((n / 10) / 10 == n / 100) by (nonlinear_arith);
            assert(dec_rep((n / 100) as nat) =~= seq![digit_char((n / 100) as nat)]);
            assert(dec_rep((n / 10) as nat) =~= dec_rep(((n / 10) / 10) as nat).push(
                digit_char(((n / 10) % 10) as nat),
            ));
            assert(dec_rep(n as nat) =~= dec_rep((n / 10) as nat).push(digit_char((n % 10) as nat)));
            assert(r@ =~= dec_rep(n as nat));
        }
        r
    }
}

/// Value of a digit string, most significant digit first.
pub open spec fn digits_val(s: Seq<char>) -> nat
    decreases s.len(),
{
    if s.len() == 0 {
        0
    } else {
        digits_val(s.drop_last()) * 10 + digit_val(s.last())
    }
}

pub open spec fn all_digits(s: Seq<char>) -> bool {
    forall|i: int| 0 <= i < s.len() ==> is_digit_char(#[trigger] s[i])
}

/// The digits of a numeric literal: an optional leading `+` is dropped.
pub open spec fn plus_stripped(s: Seq<char>) -> Seq<char> {
    if s.len() > 0 && s[0] == '+' {
        s.drop_first()
    } else {
        s
    }
}

/// What `str::parse::<u8>` accepts: an optional leading `+`, then at least
/// one decimal digit, with a value that fits in a byte.
pub open spec fn parse_u8_spec(s: Seq<char>) -> Option<u8> {
    let body = plus_stripped(s);
    if body.len() > 0 && all_digits(body) && digits_val(body) <= 255 {
        Some(digits_val(body) as u8)
    } else {
        None
    }
}

/// Extending a digit string can only increase its value.
proof fn lemma_digits_val_grows(s: Seq<char>, i: int)
    requires
        0 <= i <= s.len(),
    ensures
        digits_val(s) >= digits_val(s.take(i)),
    decreases s.len() - i,
{
    if i < s.len() {
        lemma_digits_val_grows(s, i + 1);
        assert(s.take(i + 1).drop_last() =~= s.take(i));
        assert(s.take(i + 1).last() == s[i]);
        assert(digits_val(s.take(i + 1)) == digits_val(s.take(i)) * 10 + digit_val(s[i]));
    } else {
        assert(s.take(i) =~= s);
    }
}

/// Strict decimal parse of a byte, matching `str::parse::<u8>` on the
/// strings this library ever feeds it.
pub fn parse_u8_str(s: &str) -> (r: Option<u8>)
    ensures
        r == parse_u8_spec(s@),
{
    let n = s.unicode_len();
    let start: usize = if n > 0 && s.get_char(0) == '+' {
        1
    } else {
        0
    };
    let ghost body = plus_stripped(s@);
    proof {
        assert(body =~= s@.subrange(start as int, n as int));
    }
    if n == start {
        return None;
    }
    let mut acc: u32 = 0;
    let mut i: usize = start;
    while i < n
        invariant
            start <= i <= n,
            start < n,
            n == s@.len(),
            body == plus_stripped(s@),
            body == s@.subrange(start as int, n as int),
            all_digits(body.take(i - start)),
            acc == digits_val(body.take(i - start)),
            acc <= 255,
        decreases n - i,
    {
        let c = s.get_char(i);
        let d: u32 = match c {
            '0' => 0,
            '1' => 1,
            '2' => 2,
            '3' => 3,
            '4' => 4,
            '5' => 5,
            '6' => 6,
            '7' => 7,
            '8' => 8,
            '9' => 9,
            _ => {
                proof {
                    assert(body[i - start] == c);
                    assert(!is_digit_char(c));
                }
                return None;
            },
        };
        proof {
            assert(body[i - start] == c);
            assert(d == digit_val(c));
            assert(body.take(i + 1 - start).drop_last() =~= body.take(i - start));
            assert(body.take(i + 1 - start).last() == c);
        }
        acc = acc * 10 + d;
        i = i + 1;
        if acc > 255 {
            proof {
                if all_digits(body) {
                    lemma_digits_val_grows(body, i - start);
                }
            }
            return None;
        }
    }
    proof {
        assert(body.take(n - start) =~= body);
    }
    Some(acc as u8)
}

/// Drops one leading `[` and one trailing `]`, if present. The encoder
/// renders raw-array arguments inside brackets, so the first and last array
/// tokens of such a command carry one bracket each.
pub open spec fn strip_brackets(s: Seq<char>) -> Seq<char> {
    let a = if s.len() > 0 && s[0] == '[' {
        s.drop_first()
    } else {
        s
    };
    if a.len() > 0 && a.last() == ']' {
        a.drop_last()
    } else {
        a
    }
}

/// The decoder's lenient read of a numeric field: brackets are shed, and
/// anything that still fails to parse falls back to zero.
pub open spec fn lenient_u8(s: Seq<char>) -> u8 {
    match parse_u8_spec(strip_brackets(s)) {
        Some(v) => v,
        None => 0,
    }
}

/// Lenient byte parse used for the decoder's numeric fields.
pub fn parse_u8_lenient(s: &str) -> (r: u8)
    ensures
        r == lenient_u8(s@),
{
    let n = s.unicode_len();
    let start: usize = if n > 0 && s.get_char(0) == '[' {
        1
    } else {
        0
    };
    let end: usize = if n > start && s.get_char(n - 1) == ']' {
        n - 1
    } else {
        n
    };
    let body = s.substring_char(start, end);
    proof {
        assert(body@ =~= strip_brackets(s@));
    }
    match parse_u8_str(body) {
        Some(v) => v,
        None => 0,
    }
}

/// The value a decimal rendering parses back to is the value rendered.
pub proof fn lemma_digits_val_dec_rep(n: nat)
    ensures
        digits_val(dec_rep(n)) == n,
    decreases n,
{
    lemma_dec_rep_digits(n);
    assert(digits_val(dec_rep(n)) == digits_val(dec_rep(n).drop_last()) * 10 + digit_val(
        dec_rep(n).last(),
    ));
    if n < 10 {
        assert(dec_rep(n) =~= seq![digit_char(n)]);
        assert(dec_rep(n).drop_last() =~= Seq::<char>::empty());
        assert(dec_rep(n).last() == digit_char(n));
        assert(digit_val(digit_char(n)) == n);
    } else {
        lemma_digits_val_dec_rep(n / 10);
        assert(dec_rep(n).drop_last() =~= dec_rep(n / 10));
        assert(dec_rep(n).last() == digit_char(n % 10));
        assert(digit_val(digit_char(n % 10)) == n % 10);
        assert((n / 10) * 10 + n % 10 == n);
    }
}

/// Strict parsing inverts decimal rendering for byte values.
pub proof fn lemma_parse_dec_rep(n: nat)
    requires
        n <= 255,
    ensures
        parse_u8_spec(dec_rep(n)) == Some(n as u8),
{
    lemma_dec_rep_digits(n);
    lemma_digits_val_dec_rep(n);
    assert(plus_stripped(dec_rep(n)) == dec_rep(n));
}

/// Lenient parsing inverts decimal rendering, with or without the one
/// bracket the encoder may attach on either side of a raw-array token.
pub proof fn lemma_lenient_dec_rep(n: nat)
    requires
        n <= 255,
    ensures
        lenient_u8(dec_rep(n)) == n,
        lenient_u8(seq!['['] + dec_rep(n)) == n,
        lenient_u8(dec_rep(n) + seq![']']) == n,
    decreases n,
{
    lemma_dec_rep_digits(n);
    lemma_parse_dec_rep(n);
    assert(strip_brackets(dec_rep(n)) == dec_rep(n));
    assert((seq!['['] + dec_rep(n)).drop_first() =~= dec_rep(n));
    assert(strip_brackets(seq!['['] + dec_rep(n)) == dec_rep(n));
    assert((dec_rep(n) + seq![']']).drop_last() =~= dec_rep(n));
    assert((dec_rep(n) + seq![']'])[0] == dec_rep(n)[0]);
    assert(strip_brackets(dec_rep(n) + seq![']']) == dec_rep(n));
}

/// Whitespace splitting, written as a left-to-right scan: `cur` is the token
/// being accumulated.
pub open spec fn split_ws_acc(rest: Seq<char>, cur: Seq<char>) -> Seq<Seq<char>>
    decreases rest.len(),
{
    if rest.len() == 0 {
        if cur.len() == 0 {
            Seq::empty()
        } else {
            seq![cur]
        }
    } else if is_ws_char(rest[0]) {
        if cur.len() == 0 {
            split_ws_acc(rest.drop_first(), Seq::empty())
        } else {
            seq![cur] + split_ws_acc(rest.drop_first(), Seq::empty())
        }
    } else {
        split_ws_acc(rest.drop_first(), cur.push(rest[0]))
    }
}

/// The maximal whitespace-free runs of a string, in order — what
/// `str::split_whitespace` yields on the command strings this library
/// handles.
pub open spec fn split_ws(s: Seq<char>) -> Seq<Seq<char>> {
    split_ws_acc(s, Seq::empty())
}

/// A usable token: nonempty and free of whitespace.
pub open spec fn wf_token(t: Seq<char>) -> bool {
    t.len() > 0 && forall|i: int| 0 <= i < t.len() ==> !is_ws_char(#[trigger] t[i])
}

/// Tokens joined by single spaces.
pub open spec fn join_sp(toks: Seq<Seq<char>>) -> Seq<char>
    decreases toks.len(),
{
    if toks.len() == 0 {
        Seq::empty()
    } else if toks.len() == 1 {
        toks[0]
    } else {
        toks[0] + seq![' '] + join_sp(toks.drop_first())
    }
}

/// Joining one more token appends a space and the token.
pub proof fn lemma_join_push(toks: Seq<Seq<char>>, t: Seq<char>)
    requires
        toks.len() >= 1,
    ensures
        join_sp(toks.push(t)) == join_sp(toks) + seq![' '] + t,
    decreases toks.len(),
{
    if toks.len() == 1 {
        assert(toks.push(t).drop_first() =~= seq![t]);
        assert(join_sp(seq![t]) == t);
        assert(join_sp(toks.push(t)) =~= join_sp(toks) + seq![' '] + t);
    } else {
        lemma_join_push(toks.drop_first(), t);
        assert(toks.push(t).drop_first() =~= toks.drop_first().push(t));
        assert(join_sp(toks.push(t)) =~= join_sp(toks) + seq![' '] + t);
    }
}

/// Text appended to the last token lands at the very end of the joined
/// string.
pub proof fn lemma_join_extend_last(toks: Seq<Seq<char>>, suffix: Seq<char>)
    requires
        toks.len() >= 1,
    ensures
        join_sp(toks.update(toks.len() - 1, toks.last() + suffix)) == join_sp(toks) + suffix,
    decreases toks.len(),
{
    let u = toks.update(toks.len() - 1, toks.last() + suffix);
    if toks.len() == 1 {
        assert(u =~= seq![toks[0] + suffix]);
        assert(join_sp(u) == toks[0] + suffix);
    } else {
        lemma_join_extend_last(toks.drop_first(), suffix);
        assert(u.drop_first() =~= toks.drop_first().update(
            toks.drop_first().len() - 1,
            toks.drop_first().last() + suffix,
        ));
        assert(u[0] == toks[0]);
        assert(join_sp(u) =~= join_sp(toks) + suffix);
    }
}

/// Joining three tokens in full.
pub proof fn lemma_join3(a: Seq<char>, b: Seq<char>, c: Seq<char>)
    ensures
        join_sp(seq![a, b, c]) == a + seq![' '] + b + seq![' '] + c,
{
    assert(seq![a, b, c].drop_first() =~= seq![b, c]);
    assert(seq![b, c].drop_first() =~= seq![c]);
    assert(join_sp(seq![c]) == c);
    assert(join_sp(seq![b, c]) == seq![b, c][0] + seq![' '] + join_sp(seq![b, c].drop_first()));
    assert(join_sp(seq![a, b, c]) == seq![a, b, c][0] + seq![' '] + join_sp(
        seq![a, b, c].drop_first(),
    ));
    assert(join_sp(seq![a, b, c]) =~= a + seq![' '] + b + seq![' '] + c);
}

/// Joining one more token at the front prepends it and a space.
pub proof fn lemma_join_cons(a: Seq<char>, rest: Seq<Seq<char>>)
    requires
        rest.len() >= 1,
    ensures
        join_sp(seq![a] + rest) == a + seq![' '] + join_sp(rest),
{
    assert((seq![a] + rest)[0] == a);
    assert((seq![a] + rest).drop_first() =~= rest);
    assert(join_sp(seq![a] + rest) =~= a + seq![' '] + join_sp(rest));
}

/// Joining four tokens in full.
pub proof fn lemma_join4(a: Seq<char>, b: Seq<char>, c: Seq<char>, d: Seq<char>)
    ensures
        join_sp(seq![a, b, c, d]) == a + seq![' '] + b + seq![' '] + c + seq![' '] + d,
{
    lemma_join3(a, b, c);
    lemma_join_push(seq![a, b, c], d);
    assert(seq![a, b, c].push(d) =~= seq![a, b, c, d]);
}

/// Joining five tokens in full.
pub proof fn lemma_join5(a: Seq<char>, b: Seq<char>, c: Seq<char>, d: Seq<char>, e: Seq<char>)
    ensures
        join_sp(seq![a, b, c, d, e]) == a + seq![' '] + b + seq![' '] + c + seq![' '] + d
            + seq![' '] + e,
{
    lemma_join4(a, b, c, d);
    lemma_join_push(seq![a, b, c, d], e);
    assert(seq![a, b, c, d].push(e) =~= seq![a, b, c, d, e]);
}

/// Joining six tokens in full.
pub proof fn lemma_join6(
    a: Seq<char>,
    b: Seq<char>,
    c: Seq<char>,
    d: Seq<char>,
    e: Seq<char>,
    f: Seq<char>,
)
    ensures
        join_sp(seq![a, b, c, d, e, f]) == a + seq![' '] + b + seq![' '] + c + seq![' '] + d
            + seq![' '] + e + seq![' '] + f,
{
    lemma_join5(a, b, c, d, e);
    lemma_join_push(seq![a, b, c, d, e], f);
    assert(seq![a, b, c, d, e].push(f) =~= seq![a, b, c, d, e, f]);
}

/// Joining seven tokens in full.
pub proof fn lemma_join7(
    a: Seq<char>,
    b: Seq<char>,
    c: Seq<char>,
    d: Seq<char>,
    e: Seq<char>,
    f: Seq<char>,
    g: Seq<char>,
)
    ensures
        join_sp(seq![a, b, c, d, e, f, g]) == a + seq![' '] + b + seq![' '] + c + seq![' '] + d
            + seq![' '] + e + seq![' '] + f + seq![' '] + g,
{
    lemma_join6(a, b, c, d, e, f);
    lemma_join_push(seq![a, b, c, d, e, f], g);
    assert(seq![a, b, c, d, e, f].push(g) =~= seq![a, b, c, d, e, f, g]);
}

/// Joining eight tokens in full.
pub proof fn lemma_join8(
    a: Seq<char>,
    b: Seq<char>,
    c: Seq<char>,
    d: Seq<char>,
    e: Seq<char>,
    f: Seq<char>,
    g: Seq<char>,
    h: Seq<char>,
)
    ensures
        join_sp(seq![a, b, c, d, e, f, g, h]) == a + seq![' '] + b + seq![' '] + c + seq![' '] + d
            + seq![' '] + e + seq![' '] + f + seq![' '] + g + seq![' '] + h,
{
    lemma_join7(a, b, c, d, e, f, g);
    lemma_join_push(seq![a, b, c, d, e, f, g], h);
    assert(seq![a, b, c, d, e, f, g].push(h) =~= seq![a, b, c, d, e, f, g, h]);
}

/// Joining nine tokens in full.
pub proof fn lemma_join9(
    a: Seq<char>,
    b: Seq<char>,
    c: Seq<char>,
    d: Seq<char>,
    e: Seq<char>,
    f: Seq<char>,
    g: Seq<char>,
    h: Seq<char>,
    i: Seq<char>,
)
    ensures
        join_sp(seq![a, b, c, d, e, f, g, h, i]) == a + seq![' '] + b + seq![' '] + c + seq![' ']
            + d + seq![' '] + e + seq![' '] + f + seq![' '] + g + seq![' '] + h + seq![' '] + i,
{
    lemma_join8(a, b, c, d, e, f, g, h);
    lemma_join_push(seq![a, b, c, d, e, f, g, h], i);
    assert(seq![a, b, c, d, e, f, g, h].push(i) =~= seq![a, b, c, d, e, f, g, h, i]);
}

/// Scanning a whitespace-free run appends it to the open token.
proof fn lemma_split_acc_run(tok: Seq<char>, rest: Seq<char>, cur: Seq<char>)
    requires
        forall|i: int| 0 <= i < tok.len() ==> !is_ws_char(#[trigger] tok[i]),
    ensures
        split_ws_acc(tok + rest, cur) == split_ws_acc(rest, cur + tok),
    decreases tok.len(),
{
    if tok.len() == 0 {
        assert(tok + rest =~= rest);
        assert(cur + tok =~= cur);
    } else {
        assert((tok + rest)[0] == tok[0]);
        assert((tok + rest).drop_first() =~= tok.drop_first() + rest);
        lemma_split_acc_run(tok.drop_first(), rest, cur.push(tok[0]));
        assert(cur.push(tok[0]) + tok.drop_first() =~= cur + tok);
    }
}

/// A space closes the open token.
proof fn lemma_split_acc_space(rest: Seq<char>, cur: Seq<char>)
    ensures
        cur.len() > 0 ==> split_ws_acc(seq![' '] + rest, cur) == seq![cur] + split_ws_acc(
            rest,
            Seq::empty(),
        ),
        cur.len() == 0 ==> split_ws_acc(seq![' '] + rest, cur) == split_ws_acc(rest, Seq::empty()),
{
    assert((seq![' '] + rest)[0] == ' ');
    assert((seq![' '] + rest).drop_first() =~= rest);
}

/// Splitting on whitespace undoes joining by spaces, token for token, for
/// well-formed tokens; whatever follows the joined text may be processed
/// independently provided it starts with whitespace.
pub proof fn lemma_split_join(toks: Seq<Seq<char>>, rest: Seq<char>)
    requires
        forall|i: int| 0 <= i < toks.len() ==> wf_token(#[trigger] toks[i]),
        rest.len() == 0 || is_ws_char(rest[0]),
    ensures
        split_ws(join_sp(toks) + rest) == toks + split_ws(rest),
    decreases toks.len(),
{
    if toks.len() == 0 {
        assert(join_sp(toks) + rest =~= rest);
        assert(toks + split_ws(rest) =~= split_ws(rest));
    } else if toks.len() == 1 {
        assert(wf_token(toks[0]));
        lemma_split_acc_run(toks[0], rest, Seq::empty());
        assert(Seq::<char>::empty() + toks[0] =~= toks[0]);
        if rest.len() == 0 {
            assert(split_ws_acc(rest, toks[0]) =~= seq![toks[0]]);
            assert(toks + split_ws(rest) =~= seq![toks[0]]);
        } else {
            assert(split_ws_acc(rest, toks[0]) == seq![toks[0]] + split_ws_acc(
                rest.drop_first(),
                Seq::empty(),
            ));
            assert(split_ws(rest) == split_ws_acc(rest.drop_first(), Seq::empty()));
            assert(toks + split_ws(rest) =~= seq![toks[0]] + split_ws_acc(
                rest.drop_first(),
                Seq::empty(),
            ));
        }
    } else {
        let tail = join_sp(toks.drop_first()) + rest;
        assert(join_sp(toks) + rest =~= toks[0] + (seq![' '] + tail));
        lemma_split_acc_run(toks[0], seq![' '] + tail, Seq::empty());
        assert(Seq::<char>::empty() + toks[0] =~= toks[0]);
        lemma_split_acc_space(tail, toks[0]);
        lemma_split_join(toks.drop_first(), rest);
        assert(split_ws(join_sp(toks) + rest) =~= seq![toks[0]] + (toks.drop_first() + split_ws(
            rest,
        )));
        assert(seq![toks[0]] + (toks.drop_first() + split_ws(rest)) =~= toks + split_ws(rest));
    }
}

/// Splits a string at whitespace into its maximal whitespace-free runs,
/// as `str::split_whitespace` does on command text.
pub fn tokenize(s: &str) -> (r: Vec<String>)
    ensures
        r.deep_view() == split_ws(s@),
{
    let n = s.unicode_len();
    let mut toks: Vec<String> = Vec::new();
    let mut start: usize = 0;
    let mut in_token: bool = false;
    let mut i: usize = 0;
    proof {
        assert(s@.skip(0) =~= s@);
        assert(toks.deep_view() =~= Seq::<Seq<char>>::empty());
        assert(toks.deep_view() + split_ws(s@) =~= split_ws(s@));
    }
    while i < n
        invariant
            0 <= i <= n,
            n == s@.len(),
            in_token ==> start < i,
            in_token ==> forall|j: int| start <= j < i ==> !is_ws_char(#[trigger] s@[j]),
            !in_token ==> start == i,
            toks.deep_view() + split_ws_acc(
                s@.skip(i as int),
                if in_token {
                    s@.subrange(start as int, i as int)
                } else {
                    Seq::empty()
                },
            ) == split_ws(s@),
        decreases n - i,
    {
        let ghost cur: Seq<char> = if in_token {
            s@.subrange(start as int, i as int)
        } else {
            Seq::empty()
        };
        let c = s.get_char(i);
        proof {
            assert(s@.skip(i as int)[0] == c);
            assert(s@.skip(i as int).drop_first() =~= s@.skip(i + 1));
        }
        let is_ws = c == ' ' || c == '\t' || c == '\n' || c == '\r';
        if is_ws {
            if in_token {
                let tok = s.substring_char(start, i).to_owned();
                let ghost pre = toks.deep_view();
                proof {
                    assert(split_ws_acc(s@.skip(i as int), cur) =~= seq![cur] + split_ws_acc(
                        s@.skip(i + 1),
                        Seq::empty(),
                    ));
                }
                toks.push(tok);
                proof {
                    assert(toks.deep_view() =~= pre + seq![cur]);
                }
                in_token = false;
            }
            start = i + 1;
        } else {
            if !in_token {
                start = i;
                in_token = true;
            }
            proof {
                assert(cur.push(c) =~= s@.subrange(start as int, i + 1));
            }
        }
        i = i + 1;
    }
    proof {
        assert(s@.skip(n as int) =~= Seq::<char>::empty());
    }
    if in_token {
        let tok = s.substring_char(start, n).to_owned();
        let ghost pre = toks.deep_view();
        proof {
            let cur = s@.subrange(start as int, n as int);
            assert(split_ws_acc(Seq::<char>::empty(), cur) =~= seq![cur]);
        }
        toks.push(tok);
        proof {
            assert(toks.deep_view() =~= pre + seq![tok@]);
        }
    }
    toks
}

/// Comma splitting, written as a left-to-right scan.
pub open spec fn split_comma_acc(rest: Seq<char>, cur: Seq<char>) -> Seq<Seq<char>>
    decreases rest.len(),
{
    if rest.len() == 0 {
        seq![cur]
    } else if rest[0] == ',' {
        seq![cur] + split_comma_acc(rest.drop_first(), Seq::empty())
    } else {
        split_comma_acc(rest.drop_first(), cur.push(rest[0]))
    }
}

/// The pieces of a string between its commas, empty pieces included — what
/// `str::split(',')` yields.
pub open spec fn split_comma(s: Seq<char>) -> Seq<Seq<char>> {
    split_comma_acc(s, Seq::empty())
}

/// Splits a string at commas, keeping empty pieces, as `str::split(',')`
/// does.
pub fn split_commas(s: &str) -> (r: Vec<String>)
    ensures
        r.deep_view() == split_comma(s@),
{
    let n = s.unicode_len();
    let mut pieces: Vec<String> = Vec::new();
    let mut start: usize = 0;
    let mut i: usize = 0;
    proof {
        assert(s@.skip(0) =~= s@);
        assert(s@.subrange(0, 0) =~= Seq::<char>::empty());
        assert(pieces.deep_view() =~= Seq::<Seq<char>>::empty());
        assert(pieces.deep_view() + split_comma(s@) =~= split_comma(s@));
    }
    while i < n
        invariant
            0 <= start <= i <= n,
            n == s@.len(),
            forall|j: int| start <= j < i ==> s@[j] != ',',
            pieces.deep_view() + split_comma_acc(
                s@.skip(i as int),
                s@.subrange(start as int, i as int),
            ) == split_comma(s@),
        decreases n - i,
    {
        let ghost cur = s@.subrange(start as int, i as int);
        let c = s.get_char(i);
        proof {
            assert(s@.skip(i as int)[0] == c);
            assert(s@.skip(i as int).drop_first() =~= s@.skip(i + 1));
        }
        if c == ',' {
            let piece = s.substring_char(start, i).to_owned();
            let ghost pre = pieces.deep_view();
            proof {
                assert(s@.subrange(i + 1, i + 1) =~= Seq::<char>::empty());
            }
            pieces.push(piece);
            proof {
                assert(pieces.deep_view() =~= pre + seq![cur]);
            }
            start = i + 1;
        } else {
            proof {
                assert(cur.push(c) =~= s@.subrange(start as int, i + 1));
            }
        }
        i = i + 1;
    }
    let last = s.substring_char(start, n).to_owned();
    let ghost pre = pieces.deep_view();
    proof {
        let cur = s@.subrange(start as int, n as int);
        assert(s@.skip(n as int) =~= Seq::<char>::empty());
        assert(split_comma_acc(Seq::<char>::empty(), cur) =~= seq![cur]);
    }
    pieces.push(last);
    proof {
        assert(pieces.deep_view() =~= pre + seq![last@]);
    }
    pieces
}

pub open spec fn trim_front(s: Seq<char>) -> Seq<char>
    decreases s.len(),
{
    if s.len() > 0 && is_ws_char(s[0]) {
        trim_front(s.drop_first())
    } else {
        s
    }
}

pub open spec fn trim_back(s: Seq<char>) -> Seq<char>
    decreases s.len(),
{
    if s.len() > 0 && is_ws_char(s.last()) {
        trim_back(s.drop_last())
    } else {
        s
    }
}

/// The string with leading and trailing whitespace removed — `str::trim` on
/// the text this library handles.
pub open spec fn trim_spec(s: Seq<char>) -> Seq<char> {
    trim_back(trim_front(s))
}

proof fn lemma_trim_front_skip(s: Seq<char>, k: int)
    requires
        0 <= k <= s.len(),
        forall|j: int| 0 <= j < k ==> is_ws_char(#[trigger] s[j]),
        k == s.len() || !is_ws_char(s[k]),
    ensures
        trim_front(s) == s.skip(k),
    decreases k,
{
    if k == 0 {
        assert(s.skip(0) =~= s);
    } else {
        assert(is_ws_char(s[0]));
        lemma_trim_front_skip(s.drop_first(), k - 1);
        assert(s.drop_first().skip(k - 1) =~= s.skip(k));
    }
}

proof fn lemma_trim_back_take(s: Seq<char>, k: int)
    requires
        0 <= k <= s.len(),
        forall|j: int| k <= j < s.len() ==> is_ws_char(#[trigger] s[j]),
        k == 0 || !is_ws_char(s[k - 1]),
    ensures
        trim_back(s) == s.take(k),
    decreases s.len() - k,
{
    if k == s.len() {
        assert(s.take(k) =~= s);
    } else {
        assert(is_ws_char(s.last()));
        lemma_trim_back_take(s.drop_last(), k);
        assert(s.drop_last().take(k) =~= s.take(k));
    }
}

/// Removes leading and trailing whitespace, as `str::trim` does on the text
/// this library handles.
pub fn trim_str<'a>(s: &'a str) -> (r: &'a str)
    ensures
        r@ == trim_spec(s@),
{
    let n = s.unicode_len();
    let mut a: usize = 0;
    let mut front_done: bool = false;
    while a < n && !front_done
        invariant
            0 <= a <= n,
            n == s@.len(),
            forall|j: int| 0 <= j < a ==> is_ws_char(#[trigger] s@[j]),
            front_done ==> a < n && !is_ws_char(s@[a as int]),
        decreases n - a + (if front_done {
            0int
        } else {
            1int
        }),
    {
        let c = s.get_char(a);
        if c == ' ' || c == '\t' || c == '\n' || c == '\r' {
            a = a + 1;
        } else {
            front_done = true;
        }
    }
    proof {
        lemma_trim_front_skip(s@, a as int);
    }
    let mut b: usize = n;
    let mut back_done: bool = false;
    while b > a && !back_done
        invariant
            a <= b <= n,
            n == s@.len(),
            forall|j: int| b <= j < n ==> is_ws_char(#[trigger] s@[j]),
            a == n || !is_ws_char(s@[a as int]),
            back_done ==> b > a && !is_ws_char(s@[b - 1]),
        decreases b + (if back_done {
            0int
        } else {
            1int
        }),
    {
        let c = s.get_char(b - 1);
        if c == ' ' || c == '\t' || c == '\n' || c == '\r' {
            b = b - 1;
        } else {
            back_done = true;
        }
    }
    let r = s.substring_char(a, b);
    proof {
        let f = s@.skip(a as int);
        assert(forall|j: int| b - a <= j < f.len() ==> is_ws_char(#[trigger] f[j]));
        if b > a {
            assert(!is_ws_char(f[b - a - 1]));
        }
        lemma_trim_back_take(f, b - a);
        assert(f.take(b - a) =~= s@.subrange(a as int, b as int));
    }
    r
}

/// Appends a single separating space.
pub fn push_sep(s: &mut String)
    ensures
        final(s)@ == old(s)@ + seq![' '],
{
    s.append(" ");
    proof {
        reveal_strlit(" ");
        assert(old(s)@ + " "@ =~= old(s)@ + seq![' ']);
    }
}

/// Whether a token equals a keyword literal.
pub fn token_is(tok: &String, lit: &str) -> (r: bool)
    ensures
        r == (tok@ == lit@),
{
    let k = String::from_str(lit);
    *tok == k
}

} // verus!
