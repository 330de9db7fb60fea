//! Text as sequences of characters: order, equality, decimal numerals and white space.

use vstd::prelude::*;
use vstd::string::StringExecFns;

verus! {

broadcast use vstd::string::group_string_axioms;

/// `a` stands before `b` in the lexicographic order of code points.
pub open spec fn text_before(a: Seq<char>, b: Seq<char>) -> bool
    decreases a.len(),
{
    if b.len() == 0 {
        false
    } else if a.len() == 0 {
        true
    } else if a[0] != b[0] {
        (a[0] as int) < (b[0] as int)
    } else {
        text_before(a.drop_first(), b.drop_first())
    }
}

/// How one text stands to another.
#[derive(Clone, Copy, Debug, PartialEq, Eq, Structural)]
pub enum TextOrder {
    Before,
    Same,
    After,
}

/// No text stands before itself.
pub proof fn text_before_irreflexive(a: Seq<char>)
    ensures
        !text_before(a, a),
    decreases a.len(),
{
    if a.len() > 0 {
        text_before_irreflexive(a.drop_first());
    }
}

/// The order of texts is transitive.
pub proof fn text_before_transitive(a: Seq<char>, b: Seq<char>, c: Seq<char>)
    requires
        text_before(a, b),
        text_before(b, c),
    ensures
        text_before(a, c),
    decreases a.len(),
{
    if a.len() > 0 && a[0] == b[0] && b[0] == c[0] {
        text_before_transitive(a.drop_first(), b.drop_first(), c.drop_first());
    }
}

/// Of two different texts one stands before the other.
pub proof fn text_before_total(a: Seq<char>, b: Seq<char>)
    requires
        a != b,
    ensures
        text_before(a, b) || text_before(b, a),
    decreases a.len(),
{
    if a.len() > 0 && b.len() > 0 && a[0] == b[0] {
        if a.drop_first() == b.drop_first() {
            assert(a =~= seq![a[0]] + a.drop_first());
            assert(b =~= seq![b[0]] + b.drop_first());
        }
        text_before_total(a.drop_first(), b.drop_first());
    } else if a.len() == 0 && b.len() == 0 {
        assert(a =~= b);
    }
}

/// Two texts stand as the first characters in which they differ do.
pub proof fn text_order_is_decided_at_the_first_difference(a: Seq<char>, b: Seq<char>, i: int)
    requires
        0 <= i < a.len(),
        i < b.len(),
        a.take(i) == b.take(i),
        a[i] != b[i],
    ensures
        text_before(a, b) <==> (a[i] as int) < (b[i] as int),
    decreases i,
{
    if i > 0 {
        assert(a.take(i)[0] == a[0] && b.take(i)[0] == b[0]);
        assert(a.drop_first()[i - 1] == a[i] && b.drop_first()[i - 1] == b[i]);
        assert(a.drop_first().take(i - 1) =~= a.take(i).drop_first());
        assert(b.drop_first().take(i - 1) =~= b.take(i).drop_first());
        text_order_is_decided_at_the_first_difference(a.drop_first(), b.drop_first(), i - 1);
    }
}

/// A text stands before each that goes on behind it.
pub proof fn text_stands_before_longer_ones(a: Seq<char>, behind: Seq<char>)
    requires
        behind.len() > 0,
    ensures
        text_before(a, a + behind),
    decreases a.len(),
{
    if a.len() > 0 {
        text_stands_before_longer_ones(a.drop_first(), behind);
        assert((a + behind).drop_first() =~= a.drop_first() + behind);
    }
}

/// Compares two texts by their code points.
pub fn text_order(a: &str, b: &str) -> (order: TextOrder)
    ensures
        order == TextOrder::Before <==> text_before(a@, b@),
        order == TextOrder::Same <==> a@ == b@,
        order == TextOrder::After <==> text_before(b@, a@),
{
    let mut left = a.chars();
    let mut right = b.chars();
    let ghost mut n: int = 0;
    proof {
        text_before_irreflexive(a@);
        assert(a@.skip(0) =~= a@);
        assert(b@.skip(0) =~= b@);
    }
    loop
        invariant
            0 <= n <= a@.len(),
            n <= b@.len(),
            vstd::std_specs::iter::IteratorSpec::remaining(&left) == a@.skip(n),
            vstd::std_specs::iter::IteratorSpec::remaining(&right) == b@.skip(n),
            text_before(a@.skip(n), b@.skip(n)) <==> text_before(a@, b@),
            text_before(b@.skip(n), a@.skip(n)) <==> text_before(b@, a@),
            a@.skip(n) == b@.skip(n) <==> a@ == b@,
        decreases a@.len() - n,
    {
        let ghost l = a@.skip(n);
        let ghost r = b@.skip(n);
        let x = left.next();
        let y = right.next();
        proof {
            text_before_irreflexive(l);
            if l.len() > 0 && r.len() > 0 {
                assert(l.drop_first() =~= a@.skip(n + 1));
                assert(r.drop_first() =~= b@.skip(n + 1));
                if l[0] == r[0] && l.drop_first() == r.drop_first() {
                    assert(l =~= seq![l[0]] + l.drop_first());
                    assert(r =~= seq![r[0]] + r.drop_first());
                }
            }
        }
        match (x, y) {
            (None, None) => {
                assert(l =~= r);
                return TextOrder::Same;
            },
            (None, Some(_)) => {
                return TextOrder::Before;
            },
            (Some(_), None) => {
                return TextOrder::After;
            },
            (Some(x), Some(y)) => {
                if x != y {
                    if x < y {
                        return TextOrder::Before;
                    } else {
                        return TextOrder::After;
                    }
                }
                proof {
                    n = n + 1;
                }
            },
        }
    }
}

/// Whether two texts are the same.
pub fn text_eq(a: &str, b: &str) -> (same: bool)
    ensures
        same == (a@ == b@),
{
    match text_order(a, b) {
        TextOrder::Same => true,
        _ => false,
    }
}

/// What an optional text is.
pub open spec fn text_option_view(text: Option<String>) -> Option<Seq<char>> {
    match text {
        Some(text) => Some(text@),
        None => None,
    }
}

/// One text behind another.
pub fn join(a: &str, b: &str) -> (text: String)
    ensures
        text@ == a@ + b@,
{
    let mut text = a.to_owned();
    text.append(b);
    text
}

/// Three texts one behind another.
pub fn join3(a: &str, b: &str, c: &str) -> (text: String)
    ensures
        text@ == a@ + b@ + c@,
{
    let mut text = a.to_owned();
    text.append(b);
    text.append(c);
    text
}

/// The digit that stands for `d`.
pub open spec fn digit_text(d: nat) -> Seq<char> {
    if d == 0 { "0"@ } else if d == 1 { "1"@ } else if d == 2 { "2"@ } else if d == 3 { "3"@ }
    else if d == 4 { "4"@ } else if d == 5 { "5"@ } else if d == 6 { "6"@ } else if d == 7 { "7"@ }
    else if d == 8 { "8"@ } else { "9"@ }
}

/// The decimal numeral of `n`, without leading zeros.
pub open spec fn decimal_text(n: nat) -> Seq<char>
    decreases n,
{
    if n < 10 {
        digit_text(n)
    } else {
        decimal_text(n / 10) + digit_text(n % 10)
    }
}

/// The number that digits stand for.
pub open spec fn numeral_value(text: Seq<char>) -> int
    decreases text.len(),
{
    if text.len() == 0 {
        0
    } else {
        10 * numeral_value(text.drop_last()) + (text.last() as int - 48)
    }
}

proof fn digit_is_its_value(d: nat)
    requires
        d < 10,
    ensures
        digit_text(d).len() == 1,
        digit_text(d)[0] as int == 48 + d,
{
    reveal_strlit("0");
    reveal_strlit("1");
    reveal_strlit("2");
    reveal_strlit("3");
    reveal_strlit("4");
    reveal_strlit("5");
    reveal_strlit("6");
    reveal_strlit("7");
    reveal_strlit("8");
    reveal_strlit("9");
}

/// A decimal numeral stands for its number, is made up of digits, and has no zero in front.
pub proof fn numeral_stands_for_its_number(n: nat)
    ensures
        numeral_value(decimal_text(n)) == n,
        decimal_text(n).len() > 0,
        forall|i: int|
            #![trigger decimal_text(n)[i]]
            0 <= i < decimal_text(n).len() ==> 48 <= decimal_text(n)[i] as int <= 57,
        n > 0 ==> decimal_text(n)[0] as int != 48,
    decreases n,
{
    if n < 10 {
        digit_is_its_value(n);
        reveal_with_fuel(numeral_value, 2);
    } else {
        let front = decimal_text(n / 10);
        numeral_stands_for_its_number(n / 10);
        digit_is_its_value(n % 10);
        assert(decimal_text(n).drop_last() =~= front);
        assert(decimal_text(n)[0] == front[0]);
        assert forall|i: int|
            #![trigger decimal_text(n)[i]]
            0 <= i < decimal_text(n).len() implies 48 <= decimal_text(n)[i] as int <= 57 by {
            if i < front.len() {
                assert(decimal_text(n)[i] == front[i]);
            }
        }
    }
}

/// Writes `n` as a decimal numeral.
pub fn decimal(n: usize) -> (text: String)
    ensures
        text@ == decimal_text(n as nat),
    decreases n,
{
    let d: usize = n % 10;
    let digit = if d == 0 { "0" } else if d == 1 { "1" } else if d == 2 { "2" } else if d == 3 { "3" }
        else if d == 4 { "4" } else if d == 5 { "5" } else if d == 6 { "6" } else if d == 7 { "7" }
        else if d == 8 { "8" } else { "9" };
    if n < 10 {
        digit.to_owned()
    } else {
        let mut text = decimal(n / 10);
        text.append(digit);
        text
    }
}

/// `text` ends with `words`.
pub open spec fn ends_with(text: Seq<char>, words: Seq<char>) -> bool {
    text.len() >= words.len() && text.skip(text.len() - words.len()) == words
}

/// `words` stand somewhere in `text`.
pub open spec fn holds(text: Seq<char>, words: Seq<char>) -> bool {
    exists|i: int|
        0 <= i <= text.len() - words.len() && #[trigger] text.subrange(i, i + words.len()) == words
}

/// What is put behind something ends it.
pub proof fn what_is_put_behind_ends_it(front: Seq<char>, words: Seq<char>)
    ensures
        ends_with(front + words, words),
        holds(front + words, words),
{
    let text = front + words;
    let i = front.len() as int;
    assert(text.skip(i) =~= words);
    assert(text.subrange(i, i + words.len()) =~= words);
}

/// What is put between two texts stands there.
pub proof fn what_is_put_between_stands_there(
    front: Seq<char>,
    words: Seq<char>,
    behind: Seq<char>,
)
    ensures
        holds(front + words + behind, words),
{
    let text = front + words + behind;
    let i = front.len() as int;
    assert(text.subrange(i, i + words.len()) =~= words);
}

/// The characters that Unicode gives the property `White_Space`.
pub open spec fn is_white_space(c: char) -> bool {
    let u = c as u32;
    ||| 0x9 <= u <= 0xd
    ||| u == 0x20
    ||| u == 0x85
    ||| u == 0xa0
    ||| u == 0x1680
    ||| 0x2000 <= u <= 0x200a
    ||| u == 0x2028
    ||| u == 0x2029
    ||| u == 0x202f
    ||| u == 0x205f
    ||| u == 0x3000
}

/// Whether `c` is white space.
pub fn white_space(c: char) -> (white: bool)
    ensures
        white == is_white_space(c),
{
    let u: u32 = c as u32;
    (0x9 <= u && u <= 0xd) || u == 0x20 || u == 0x85 || u == 0xa0 || u == 0x1680
        || (0x2000 <= u && u <= 0x200a) || u == 0x2028 || u == 0x2029 || u == 0x202f
        || u == 0x205f || u == 0x3000
}

/// `text`, read between its leading and its trailing white space, begins with `open` and
/// ends with `close`.
pub open spec fn wrapped_in(text: Seq<char>, open: char, close: char) -> bool {
    exists|i: int, j: int|
        #![trigger text[i], text[j]]
        {
            &&& 0 <= i < text.len()
            &&& 0 <= j < text.len()
            &&& text[i] == open
            &&& text[j] == close
            &&& forall|k: int| 0 <= k < i ==> is_white_space(#[trigger] text[k])
            &&& forall|k: int| j < k < text.len() ==> is_white_space(#[trigger] text[k])
        }
}

/// White space around a text does not matter: it is wrapped where, between the white space, it begins
/// with `open` and ends with `close`, and nowhere else.
pub proof fn white_space_around_does_not_matter(
    front: Seq<char>,
    middle: Seq<char>,
    behind: Seq<char>,
    open: char,
    close: char,
)
    requires
        !is_white_space(open),
        !is_white_space(close),
        forall|k: int| 0 <= k < front.len() ==> is_white_space(#[trigger] front[k]),
        forall|k: int| 0 <= k < behind.len() ==> is_white_space(#[trigger] behind[k]),
        middle.len() > 0,
        !is_white_space(middle[0]),
        !is_white_space(middle.last()),
    ensures
        wrapped_in(front + middle + behind, open, close) <==> middle[0] == open && middle.last()
            == close,
{
    let text = front + middle + behind;
    let first = front.len() as int;
    let last = front.len() + middle.len() - 1;
    assert(text[first] == middle[0]);
    assert(text[last] == middle.last());
    assert forall|k: int| 0 <= k < first implies is_white_space(#[trigger] text[k]) by {
        assert(text[k] == front[k]);
    }
    assert forall|k: int| last < k < text.len() implies is_white_space(#[trigger] text[k]) by {
        assert(text[k] == behind[k - last - 1]);
    }
}

/// A blank text is not wrapped in anything that is no white space.
pub proof fn blank_text_is_not_wrapped(text: Seq<char>, open: char, close: char)
    requires
        !is_white_space(open),
        forall|k: int| 0 <= k < text.len() ==> is_white_space(#[trigger] text[k]),
    ensures
        !wrapped_in(text, open, close),
{
}

/// The space, the tab and the ends of lines are white space; what can be seen of ASCII is not.
pub proof fn blanks_are_white_space(c: char)
    ensures
        c == ' ' || c == '\t' || c == '\n' || c == '\r' ==> is_white_space(c),
        0x21 <= c as u32 <= 0x7e ==> !is_white_space(c),
{
}

/// Whether `text`, without the white space around it, begins with `open` and ends with `close`.
pub fn is_wrapped_in(text: &str, open: char, close: char) -> (wrapped: bool)
    requires
        !is_white_space(open),
        !is_white_space(close),
    ensures
        wrapped == wrapped_in(text@, open, close),
{
    let mut rest = text.chars();
    let mut first: Option<char> = None;
    let mut last: Option<char> = None;
    let ghost mut n: int = 0;
    let ghost mut i: int = 0;
    let ghost mut j: int = 0;
    proof {
        assert(text@.skip(0) =~= text@);
    }
    loop
        invariant
            0 <= n <= text@.len(),
            vstd::std_specs::iter::IteratorSpec::remaining(&rest) == text@.skip(n),
            first is None <==> last is None,
            first is None ==> forall|k: int| 0 <= k < n ==> is_white_space(#[trigger] text@[k]),
            first matches Some(c) ==> {
                &&& 0 <= i < n
                &&& c == text@[i]
                &&& !is_white_space(c)
                &&& forall|k: int| 0 <= k < i ==> is_white_space(#[trigger] text@[k])
            },
            last matches Some(c) ==> {
                &&& 0 <= j < n
                &&& c == text@[j]
                &&& !is_white_space(c)
                &&& forall|k: int| j < k < n ==> is_white_space(#[trigger] text@[k])
            },
            !is_white_space(open),
            !is_white_space(close),
        decreases text@.len() - n,
    {
        match rest.next() {
            Some(c) => {
                proof {
                    assert(c == text@[n]);
                    assert(text@.skip(n).drop_first() =~= text@.skip(n + 1));
                }
                if !white_space(c) {
                    if first.is_none() {
                        first = Some(c);
                        proof {
                            i = n;
                        }
                    }
                    last = Some(c);
                    proof {
                        j = n;
                    }
                }
                proof {
                    n = n + 1;
                }
            },
            None => {
                let wrapped = match (first, last) {
                    (Some(f), Some(l)) => f == open && l == close,
                    _ => false,
                };
                proof {
                    assert(n == text@.len());
                    if wrapped_in(text@, open, close) {
                        let (p, q) = choose|p: int, q: int|
                            #![trigger text@[p], text@[q]]
                            {
                                &&& 0 <= p < text@.len()
                                &&& 0 <= q < text@.len()
                                &&& text@[p] == open
                                &&& text@[q] == close
                                &&& forall|k: int| 0 <= k < p ==> is_white_space(#[trigger] text@[k])
                                &&& forall|k: int| q < k < text@.len() ==> is_white_space(#[trigger] text@[k])
                            };
                        assert(!is_white_space(text@[p]));
                        assert(!is_white_space(text@[q]));
                    }
                    if wrapped {
                        assert(text@[i] == open && text@[j] == close);
                    }
                }
                return wrapped;
            },
        }
    }
}

} // verus!
