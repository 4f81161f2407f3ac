//! Text helpers: comparison of string slices and decimal rendering of
//! unsigned integers.

use vstd::prelude::*;
use vstd::string::*;

verus! {

/// The character that writes the decimal digit `d`.
pub open spec fn digit_char(d: nat) -> char
    recommends
        d < 10,
{
    if d == 0 {
        '0'
    } else if d == 1 {
        '1'
    } else if d == 2 {
        '2'
    } else if d == 3 {
        '3'
    } else if d == 4 {
        '4'
    } else if d == 5 {
        '5'
    } else if d == 6 {
        '6'
    } else if d == 7 {
        '7'
    } else if d == 8 {
        '8'
    } else {
        '9'
    }
}

/// The decimal numeral of `n`, without sign and without leading zeros.
pub open spec fn decimal(n: nat) -> Seq<char>
    decreases n,
{
    if n < 10 {
        seq![digit_char(n)]
    } else {
        decimal(n / 10).push(digit_char(n % 10))
    }
}

/// The one-character text of a decimal digit.
pub fn digit_text(d: u64) -> (r: &'static str)
    requires
        d < 10,
    ensures
        r@ == seq![digit_char(d as nat)],
{
    proof {
        reveal_strlit("0");
        reveal_strlit("1");
        reveal_strlit("2");
        reveal_strlit("3");
        reveal_strlit("4");
        reveal_strlit("5");
        reveal_strlit("6");
        reveal_strlit("7");
        reveal_strlit("8");
        reveal_strlit("9");
    }
    let r = if d == 0 {
        "0"
    } else if d == 1 {
        "1"
    } else if d == 2 {
        "2"
    } else if d == 3 {
        "3"
    } else if d == 4 {
        "4"
    } else if d == 5 {
        "5"
    } else if d == 6 {
        "6"
    } else if d == 7 {
        "7"
    } else if d == 8 {
        "8"
    } else {
        "9"
    };
    assert(r@ =~= seq![digit_char(d as nat)]);
    r
}

/// Renders `n` in decimal.
pub fn decimal_text(n: u64) -> (s: String)
    ensures
        s@ == decimal(n as nat),
    decreases n,
{
    if n < 10 {
        digit_text(n).to_owned()
    } else {
        let mut s = decimal_text(n / 10);
        s.append(digit_text(n % 10));
        s
    }
}

/// Whether two string slices hold the same characters.
pub fn text_eq(a: &str, b: &str) -> (r: bool)
    ensures
        r == (a@ == b@),
{
    let x = a.as_bytes();
    let y = b.as_bytes();
    proof {
        vstd::utf8::encode_utf8_decode_utf8(a@);
        vstd::utf8::encode_utf8_decode_utf8(b@);
    }
    if x.len() != y.len() {
        return false;
    }
    let mut i: usize = 0;
    while i < x.len()
        invariant
            i <= x.len(),
            x.len() == y.len(),
            x@ == a.spec_bytes(),
            y@ == b.spec_bytes(),
            forall|j: int| 0 <= j < i ==> x@[j] == y@[j],
        decreases x.len() - i,
    {
        if x[i] != y[i] {
            return false;
        }
        i = i + 1;
    }
    assert(x@ =~= y@);
    true
}

/// Whether `wanted` is one of `items`.
pub fn has_text(items: &Vec<&'static str>, wanted: &str) -> (r: bool)
    ensures
        r == items.deep_view().contains(wanted@),
{
    let mut i: usize = 0;
    while i < items.len()
        invariant
            i <= items.len(),
            forall|j: int| 0 <= j < i ==> items.deep_view()[j] != wanted@,
        decreases items.len() - i,
    {
        if text_eq(items[i], wanted) {
            assert(items.deep_view()[i as int] == wanted@);
            return true;
        }
        i = i + 1;
    }
    false
}

/// Appends a copy of `text` to `args`.
pub fn push_text(args: &mut Vec<String>, text: &str)
    ensures
        final(args).deep_view() == old(args).deep_view().push(text@),
{
    args.push(text.to_owned());
    assert(args.deep_view() =~= old(args).deep_view().push(text@));
}

/// Appends a copy of each of `texts` to `args`, in order.
pub fn push_texts(args: &mut Vec<String>, texts: &Vec<&'static str>)
    ensures
        final(args).deep_view() == old(args).deep_view() + texts.deep_view(),
{
    let mut i: usize = 0;
    while i < texts.len()
        invariant
            i <= texts.len(),
            args.deep_view() == old(args).deep_view() + texts.deep_view().take(i as int),
        decreases texts.len() - i,
    {
        push_text(args, texts[i]);
        assert(args.deep_view() =~= old(args).deep_view() + texts.deep_view().take(i + 1));
        i = i + 1;
    }
    assert(texts.deep_view().take(i as int) =~= texts.deep_view());
}

/// Moves the strings of `more` to the end of `args`.
pub fn append_texts(args: &mut Vec<String>, more: Vec<String>)
    ensures
        final(args).deep_view() == old(args).deep_view() + more.deep_view(),
{
    let mut more = more;
    let ghost tail = more.deep_view();
    args.append(&mut more);
    assert(args.deep_view() =~= old(args).deep_view() + tail);
}

} // verus!
