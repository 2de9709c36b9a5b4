//! Text helpers: UTF-8 decoding, building strings character by character,
//! splitting on whitespace, decimal numerals and code blocks.
use vstd::prelude::*;
use vstd::utf8::*;

verus! {

/// `String::from_utf8`, with the error turned into `None`. The standard
/// library documents that it succeeds exactly on valid UTF-8 and then holds
/// the characters those bytes encode.
#[verifier::external_body]
pub(crate) fn string_from_utf8(bytes: Vec<u8>) -> (r: Option<String>)
    ensures
        r is Some <==> valid_utf8(bytes@),
        r matches Some(s) ==> s@ == decode_utf8(bytes@),
{
    String::from_utf8(bytes).ok()
}

/// The bytes of a string decode back to the string.
pub proof fn lemma_encoding_decodes(s: Seq<char>)
    ensures
        valid_utf8(encode_utf8(s)),
        decode_utf8(encode_utf8(s)) == s,
{
    encode_utf8_valid_utf8(s);
    encode_utf8_decode_utf8(s);
}

/// The characters of a string, in order.
pub fn chars_of(s: &str) -> (r: Vec<char>)
    ensures
        r@ == s@,
{
    let mut r: Vec<char> = Vec::new();
    for c in it: s.chars()
        invariant
            r@ == it.seq().take(it.index() as int),
    {
        r.push(c);
    }
    r
}

/// `String::push`: appends one character.
#[verifier::external_body]
fn push_char(s: &mut String, c: char)
    ensures
        final(s)@ == old(s)@.push(c),
{
    s.push(c);
}

/// A string made of the given characters.
pub fn string_of_chars(v: &Vec<char>) -> (s: String)
    ensures
        s@ == v@,
{
    let mut s = String::new();
    let mut i: usize = 0;
    while i < v.len()
        invariant
            i <= v@.len(),
            s@ == v@.take(i as int),
        decreases v@.len() - i,
    {
        push_char(&mut s, v[i]);
        i = i + 1;
        assert(s@ =~= v@.take(i as int));
    }
    assert(v@.take(i as int) =~= v@);
    s
}

/// Unicode's White_Space property, which `char::is_whitespace` and
/// `str::split_whitespace` go by.
pub open spec fn is_white_space(c: char) -> bool {
    let u = c as u32;
    ||| 0x09 <= u <= 0x0D
    ||| u == 0x20
    ||| u == 0x85
    ||| u == 0xA0
    ||| u == 0x1680
    ||| 0x2000 <= u <= 0x200A
    ||| u == 0x2028
    ||| u == 0x2029
    ||| u == 0x202F
    ||| u == 0x205F
    ||| u == 0x3000
}

/// Whether a character is white space.
pub fn is_whitespace(c: char) -> (r: bool)
    ensures
        r == is_white_space(c),
{
    let u = c as u32;
    (0x09 <= u && u <= 0x0D) || u == 0x20 || u == 0x85 || u == 0xA0 || u == 0x1680 || (0x2000
        <= u && u <= 0x200A) || u == 0x2028 || u == 0x2029 || u == 0x202F || u == 0x205F || u
        == 0x3000
}

/// The number of characters before the first white space.
pub open spec fn word_len(s: Seq<char>) -> nat
    decreases s.len(),
{
    if s.len() == 0 || is_white_space(s[0]) {
        0
    } else {
        1 + word_len(s.drop_first())
    }
}

/// A word is no longer than the text it starts.
pub proof fn lemma_word_len_bound(s: Seq<char>)
    ensures
        word_len(s) <= s.len(),
    decreases s.len(),
{
    if s.len() > 0 && !is_white_space(s[0]) {
        lemma_word_len_bound(s.drop_first());
    }
}

/// The words of a text: its maximal runs of characters that are not white
/// space, in order, as `str::split_whitespace` yields them.
pub open spec fn words(s: Seq<char>) -> Seq<Seq<char>>
    decreases s.len(),
{
    if s.len() == 0 {
        seq![]
    } else if is_white_space(s[0]) {
        words(s.drop_first())
    } else {
        proof {
            lemma_word_len_bound(s);
        }
        let n = word_len(s);
        seq![s.take(n as int)] + words(s.skip(n as int))
    }
}

/// A run of non-space characters ended by a space (or the end) is a word's length.
pub proof fn lemma_word_len_of_run(s: Seq<char>, n: int)
    requires
        0 <= n <= s.len(),
        forall|k: int| 0 <= k < n ==> !is_white_space(#[trigger] s[k]),
        n == s.len() || is_white_space(s[n]),
    ensures
        word_len(s) == n,
    decreases n,
{
    if n > 0 {
        let t = s.drop_first();
        assert forall|k: int| 0 <= k < n - 1 implies !is_white_space(#[trigger] t[k]) by {
            assert(t[k] == s[k + 1]);
        }
        lemma_word_len_of_run(t, n - 1);
    }
}

/// The views of a list of character vectors.
pub open spec fn views_of(v: Seq<Vec<char>>) -> Seq<Seq<char>> {
    v.map_values(|w: Vec<char>| w@)
}

/// Splits characters into words at white space.
pub fn split_words(v: &Vec<char>) -> (r: Vec<Vec<char>>)
    ensures
        views_of(r@) == words(v@),
{
    let mut out: Vec<Vec<char>> = Vec::new();
    let mut i: usize = 0;
    assert(v@.skip(0) =~= v@);
    assert(views_of(out@) =~= Seq::<Seq<char>>::empty());
    while i < v.len()
        invariant
            i <= v@.len(),
            words(v@) == views_of(out@) + words(v@.skip(i as int)),
        decreases v@.len() - i,
    {
        let ghost rest = v@.skip(i as int);
        if is_whitespace(v[i]) {
            assert(rest.drop_first() =~= v@.skip(i + 1));
            i = i + 1;
        } else {
            let start = i;
            let mut w: Vec<char> = Vec::new();
            while i < v.len() && !is_whitespace(v[i])
                invariant
                    start <= i <= v@.len(),
                    w@ == v@.subrange(start as int, i as int),
                    forall|k: int| start <= k < i ==> !is_white_space(#[trigger] v@[k]),
                decreases v@.len() - i,
            {
                w.push(v[i]);
                i = i + 1;
                assert(w@ =~= v@.subrange(start as int, i as int));
            }
            proof {
                let n = i - start;
                assert forall|k: int| 0 <= k < n implies !is_white_space(#[trigger] rest[k]) by {
                    assert(rest[k] == v@[start + k]);
                }
                if i < v@.len() {
                    assert(rest[n] == v@[i as int]);
                }
                lemma_word_len_of_run(rest, n);
                assert(rest.take(n) =~= w@);
                assert(rest.skip(n) =~= v@.skip(i as int));
            }
            let ghost before = out@;
            out.push(w);
            assert(views_of(out@) =~= views_of(before).push(w@));
            assert(words(v@) =~= views_of(out@) + words(v@.skip(i as int)));
        }
    }
    assert(words(v@.skip(i as int)) =~= Seq::<Seq<char>>::empty());
    assert(words(v@) =~= views_of(out@));
    out
}

/// The decimal digit `d` as a character.
pub open spec fn digit_char(d: int) -> char {
    (48 + d) as char
}

/// The decimal numeral of a natural number.
pub open spec fn nat_decimal(n: nat) -> Seq<char>
    decreases n,
{
    if n < 10 {
        seq![digit_char(n as int)]
    } else {
        nat_decimal(n / 10) + seq![digit_char((n % 10) as int)]
    }
}

/// The decimal numeral of an integer, with a leading minus sign when it is
/// negative, as `Display` writes it.
pub open spec fn int_decimal(n: int) -> Seq<char> {
    if n < 0 {
        seq!['-'] + nat_decimal((-n) as nat)
    } else {
        nat_decimal(n as nat)
    }
}

fn push_decimal(out: &mut String, n: u32)
    ensures
        final(out)@ == old(out)@ + nat_decimal(n as nat),
    decreases n,
{
    if n >= 10 {
        push_decimal(out, n / 10);
    }
    let d: u8 = (n % 10) as u8;
    push_char(out, (48u8 + d) as char);
    assert(final(out)@ =~= old(out)@ + nat_decimal(n as nat));
}

/// The decimal numeral of an `i32`.
pub fn i32_to_decimal(n: i32) -> (s: String)
    ensures
        s@ == int_decimal(n as int),
{
    let mut s = String::new();
    if n < 0 {
        push_char(&mut s, '-');
        let m: u32 = (0i64 - (n as i64)) as u32;
        push_decimal(&mut s, m);
    } else {
        push_decimal(&mut s, n as u32);
    }
    assert(s@ =~= int_decimal(n as int));
    s
}

/// The text wrapped in a Markdown code block.
pub open spec fn codeblock(inp: Seq<char>) -> Seq<char> {
    "```"@ + inp + "```"@
}

/// Wraps a text in a Markdown code block.
pub fn gen_codeblock(inp: &str) -> (s: String)
    ensures
        s@ == codeblock(inp@),
{
    let mut s = "```".to_owned();
    s.append(inp);
    s.append("```");
    s
}

/// A character takes one to four bytes in UTF-8.
pub proof fn lemma_encoding_len(s: Seq<char>)
    ensures
        s.len() <= encode_utf8(s).len() <= 4 * s.len(),
    decreases s.len(),
{
    if s.len() > 0 {
        lemma_encoding_len(s.drop_first());
    }
}

/// Valid UTF-8 holds no more characters than bytes.
pub proof fn lemma_decoding_len(b: Seq<u8>)
    requires
        valid_utf8(b),
    ensures
        decode_utf8(b).len() <= b.len(),
{
    decode_utf8_encode_utf8(b);
    lemma_encoding_len(decode_utf8(b));
}

/// No word is longer than the text it comes from.
pub proof fn lemma_words_len(s: Seq<char>)
    ensures
        forall|i: int| 0 <= i < words(s).len() ==> (#[trigger] words(s)[i]).len() <= s.len(),
    decreases s.len(),
{
    if s.len() == 0 {
    } else if is_white_space(s[0]) {
        lemma_words_len(s.drop_first());
        assert(words(s) == words(s.drop_first()));
        assert forall|i: int| 0 <= i < words(s).len() implies (#[trigger] words(s)[i]).len()
            <= s.len() by {
            assert(words(s)[i] == words(s.drop_first())[i]);
        }
    } else {
        lemma_word_len_bound(s);
        let n = word_len(s);
        lemma_words_len(s.skip(n as int));
        assert forall|i: int| 0 <= i < words(s).len() implies (#[trigger] words(s)[i]).len()
            <= s.len() by {
            if i > 0 {
                assert(words(s)[i] == words(s.skip(n as int))[i - 1]);
            } else {
                assert(words(s)[i] == s.take(n as int));
            }
        }
    }
}

spec fn ten_to(k: nat) -> nat
    decreases k,
{
    if k == 0 {
        1
    } else {
        10 * ten_to((k - 1) as nat)
    }
}

/// The numeral of a number below ten to the `k` has at most `k` digits.
proof fn lemma_nat_decimal_len(n: nat, k: nat)
    requires
        k >= 1,
        n < ten_to(k),
    ensures
        nat_decimal(n).len() <= k,
    decreases k,
{
    if n >= 10 {
        if k == 1 {
            assert(ten_to(1) == 10 * ten_to(0));
        }
        assert(n / 10 < ten_to((k - 1) as nat));
        lemma_nat_decimal_len(n / 10, (k - 1) as nat);
    }
}

/// The numeral of an `i32` has at most eleven characters.
pub proof fn lemma_int_decimal_len(n: i32)
    ensures
        int_decimal(n as int).len() <= 11,
{
    reveal_with_fuel(ten_to, 11);
    assert(ten_to(10) == 10000000000);
    if n < 0 {
        lemma_nat_decimal_len((-n) as nat, 10);
    } else {
        lemma_nat_decimal_len(n as nat, 10);
    }
}

/// The text without its backticks, so that it cannot close a code block.
pub open spec fn without_backticks(s: Seq<char>) -> Seq<char> {
    s.filter(|c: char| c != '`')
}

/// Removes every backtick from a text.
pub fn remove_backticks(s: &str) -> (r: String)
    ensures
        r@ == without_backticks(s@),
{
    let v = chars_of(s);
    let mut r = String::new();
    let mut i: usize = 0;
    assert(v@.take(0) =~= Seq::<char>::empty());
    proof {
        reveal_with_fuel(Seq::<char>::filter, 1);
    }
    while i < v.len()
        invariant
            i <= v@.len(),
            r@ == without_backticks(v@.take(i as int)),
        decreases v@.len() - i,
    {
        proof {
            reveal_with_fuel(Seq::<char>::filter, 1);
            assert(v@.take(i + 1).drop_last() =~= v@.take(i as int));
            assert(v@.take(i + 1).last() == v@[i as int]);
        }
        if v[i] != '`' {
            push_char(&mut r, v[i]);
        }
        i = i + 1;
    }
    assert(v@.take(i as int) =~= v@);
    r
}

/// Leading white space does not change the words of a text.
pub proof fn lemma_words_after_space(lead: Seq<char>, t: Seq<char>)
    requires
        forall|i: int| 0 <= i < lead.len() ==> is_white_space(#[trigger] lead[i]),
    ensures
        words(lead + t) == words(t),
    decreases lead.len(),
{
    if lead.len() > 0 {
        assert((lead + t)[0] == lead[0]);
        assert((lead + t).drop_first() =~= lead.drop_first() + t);
        assert forall|i: int| 0 <= i < lead.drop_first().len() implies is_white_space(
            #[trigger] lead.drop_first()[i],
        ) by {
            assert(lead.drop_first()[i] == lead[i + 1]);
        }
        lemma_words_after_space(lead.drop_first(), t);
    } else {
        assert(lead + t =~= t);
    }
}

/// A word followed by white space (or nothing) is the first word of the
/// text, and the rest of the words are those of what follows it.
pub proof fn lemma_words_of_word(w: Seq<char>, rest: Seq<char>)
    requires
        w.len() > 0,
        forall|i: int| 0 <= i < w.len() ==> !is_white_space(#[trigger] w[i]),
        rest.len() == 0 || is_white_space(rest[0]),
    ensures
        words(w + rest) == seq![w] + words(rest),
{
    let s = w + rest;
    assert forall|k: int| 0 <= k < w.len() implies !is_white_space(#[trigger] s[k]) by {
        assert(s[k] == w[k]);
    }
    if rest.len() > 0 {
        assert(s[w.len() as int] == rest[0]);
    }
    lemma_word_len_of_run(s, w.len() as int);
    assert(s[0] == w[0]);
    assert(s.take(w.len() as int) =~= w);
    assert(s.skip(w.len() as int) =~= rest);
}

/// The number a string of decimal digits stands for.
pub open spec fn digits_value(s: Seq<char>) -> int
    decreases s.len(),
{
    if s.len() == 0 {
        0
    } else {
        10 * digits_value(s.drop_last()) + (s.last() as int - 48)
    }
}

/// Every character is a decimal digit.
pub open spec fn all_digits(s: Seq<char>) -> bool {
    forall|i: int| 0 <= i < s.len() ==> '0' <= #[trigger] s[i] <= '9'
}

proof fn lemma_nat_decimal_value(n: nat)
    ensures
        nat_decimal(n).len() > 0,
        all_digits(nat_decimal(n)),
        digits_value(nat_decimal(n)) == n,
        n > 0 ==> nat_decimal(n)[0] != '0',
    decreases n,
{
    let d = digit_char((n % 10) as int);
    assert(d as int == 48 + n % 10) by {
        vstd::utf8::char_u32_cast(d, (48 + n % 10) as u32);
    }
    if n >= 10 {
        lemma_nat_decimal_value(n / 10);
        let s = nat_decimal(n);
        assert(s.drop_last() =~= nat_decimal(n / 10));
        assert(s.last() == d);
        assert(digits_value(s) == 10 * digits_value(s.drop_last()) + (s.last() as int - 48));
        assert(n == 10 * (n / 10) + n % 10);
        assert(s[0] == nat_decimal(n / 10)[0]);
        assert forall|i: int| 0 <= i < s.len() implies '0' <= #[trigger] s[i] <= '9' by {
            if i < s.len() - 1 {
                assert(s[i] == nat_decimal(n / 10)[i]);
            }
        }
    } else {
        let s = nat_decimal(n);
        assert(s.drop_last() =~= Seq::<char>::empty());
        assert(n % 10 == n);
        assert(s.last() == d);
        assert(digits_value(s) == 10 * digits_value(s.drop_last()) + (s.last() as int - 48));
    }
}

/// The numeral of an integer is a minus sign for negative numbers, then
/// decimal digits without a leading zero that stand for its magnitude.
pub proof fn law_decimal_numeral_stands_for_number(n: int)
    ensures
        n < 0 ==> int_decimal(n) == seq!['-'] + int_decimal(-n),
        n >= 0 ==> {
            &&& int_decimal(n).len() > 0
            &&& all_digits(int_decimal(n))
            &&& digits_value(int_decimal(n)) == n
            &&& (n > 0 ==> int_decimal(n)[0] != '0')
        },
{
    if n < 0 {
        lemma_nat_decimal_value((-n) as nat);
    } else {
        lemma_nat_decimal_value(n as nat);
    }
}

/// A payload without backticks is kept whole.
pub proof fn law_backtick_free_text_is_kept(s: Seq<char>)
    requires
        !s.contains('`'),
    ensures
        without_backticks(s) == s,
    decreases s.len(),
{
    reveal_with_fuel(Seq::<char>::filter, 1);
    if s.len() > 0 {
        assert(!s.drop_last().contains('`')) by {
            if s.drop_last().contains('`') {
                let k = choose|k: int| 0 <= k < s.drop_last().len() && s.drop_last()[k] == '`';
                assert(s[k] == '`');
            }
        }
        assert(s.last() != '`') by {
            assert(s[s.len() - 1] == s.last());
        }
        law_backtick_free_text_is_kept(s.drop_last());
        assert(s.drop_last().push(s.last()) =~= s);
    }
}

/// Removing backticks works character by character: the text of two parts
/// keeps the kept characters of each, in order, and a single character is
/// kept exactly when it is not a backtick.
pub proof fn law_backtick_removal_is_per_character(a: Seq<char>, b: Seq<char>, c: char)
    ensures
        without_backticks(a + b) == without_backticks(a) + without_backticks(b),
        without_backticks(seq![c]) == (if c == '`' {
            Seq::<char>::empty()
        } else {
            seq![c]
        }),
{
    let f = |x: char| x != '`';
    Seq::filter_distributes_over_add(a, b, f);
    reveal_with_fuel(Seq::<char>::filter, 2);
    assert(seq![c].drop_last() =~= Seq::<char>::empty());
}

} // verus!
