use vstd::prelude::*;

verus! {

/// `s` without its longest prefix made only of `c`.
pub open spec fn strip_front(s: Seq<char>, c: char) -> Seq<char>
    decreases s.len(),
{
    if s.len() > 0 && s[0] == c {
        strip_front(s.drop_first(), c)
    } else {
        s
    }
}

/// `s` without its longest suffix made only of `c`.
pub open spec fn strip_back(s: Seq<char>, c: char) -> Seq<char>
    decreases s.len(),
{
    if s.len() > 0 && s.last() == c {
        strip_back(s.drop_last(), c)
    } else {
        s
    }
}

/// One run of opening brackets off the front and one run of closing brackets
/// off the back.
pub open spec fn unbracketed(s: Seq<char>) -> Seq<char> {
    strip_back(strip_front(s, '['), ']')
}

/// The pieces of `s` between occurrences of `sep`, in order; an empty text
/// is one empty piece, and so is the text after a trailing separator.
pub open spec fn pieces(s: Seq<char>, sep: char) -> Seq<Seq<char>>
    decreases s.len(),
{
    if s.len() == 0 {
        seq![Seq::<char>::empty()]
    } else {
        let before = pieces(s.drop_last(), sep);
        if s.last() == sep {
            before.push(Seq::<char>::empty())
        } else {
            before.update(before.len() - 1, before.last().push(s.last()))
        }
    }
}

pub open spec fn digit(d: nat) -> char {
    seq!['0', '1', '2', '3', '4', '5', '6', '7', '8', '9'][d as int]
}

/// The decimal numeral of `n`, without leading zeros.
pub open spec fn decimal(n: nat) -> Seq<char>
    decreases n,
{
    if n < 10 {
        seq![digit(n)]
    } else {
        decimal(n / 10).push(digit(n % 10))
    }
}

/// What `str::trim` leaves of a text.
pub uninterp spec fn trimmed(s: Seq<char>) -> Seq<char>;

/// Relies on `str::trim`: the text without leading and trailing white space,
/// a function of the characters alone.
#[verifier::external_body]
pub(crate) fn trim(s: &str) -> (r: &str)
    ensures
        r@ == trimmed(s@),
{
    s.trim()
}

/// `strip_front` cuts off a prefix made of `c` and leaves a text that does
/// not start with `c`; the result is where the rest begins.
pub proof fn lemma_strip_front(s: Seq<char>, c: char) -> (i: int)
    ensures
        0 <= i <= s.len(),
        strip_front(s, c) == s.subrange(i, s.len() as int),
        forall|k: int| 0 <= k < i ==> s[k] == c,
        strip_front(s, c).len() > 0 ==> strip_front(s, c)[0] != c,
    decreases s.len(),
{
    if s.len() > 0 && s[0] == c {
        let i = lemma_strip_front(s.drop_first(), c);
        assert(s.drop_first().subrange(i, s.len() - 1) =~= s.subrange(i + 1, s.len() as int));
        assert forall|k: int| 0 <= k < i + 1 implies s[k] == c by {
            if k > 0 {
                assert(s[k] == s.drop_first()[k - 1]);
            }
        }
        i + 1
    } else {
        assert(s.subrange(0, s.len() as int) =~= s);
        0
    }
}

/// `strip_back` cuts off a suffix made of `c` and leaves a text that does not
/// end with `c`; the result is where the cut suffix begins.
pub proof fn lemma_strip_back(s: Seq<char>, c: char) -> (j: int)
    ensures
        0 <= j <= s.len(),
        strip_back(s, c) == s.subrange(0, j),
        forall|k: int| j <= k < s.len() ==> s[k] == c,
        strip_back(s, c).len() > 0 ==> strip_back(s, c).last() != c,
    decreases s.len(),
{
    if s.len() > 0 && s.last() == c {
        let j = lemma_strip_back(s.drop_last(), c);
        assert(s.drop_last().subrange(0, j) =~= s.subrange(0, j));
        assert forall|k: int| j <= k < s.len() implies s[k] == c by {
            if k < s.len() - 1 {
                assert(s[k] == s.drop_last()[k]);
            }
        }
        j
    } else {
        assert(s.subrange(0, s.len() as int) =~= s);
        s.len() as int
    }
}

proof fn lemma_pieces_len(s: Seq<char>, sep: char)
    ensures
        pieces(s, sep).len() >= 1,
    decreases s.len(),
{
    if s.len() > 0 {
        lemma_pieces_len(s.drop_last(), sep);
    }
}

/// Removes the run of `[` at the start of `text` and the run of `]` at its end.
pub fn trim_brackets(text: &str) -> (r: &str)
    ensures
        r@ == unbracketed(text@),
{
    let n = text.unicode_len();
    let mut i: usize = 0;
    assert(text@.subrange(0, n as int) =~= text@);
    while i < n && text.get_char(i) == '['
        invariant
            i <= n,
            n == text@.len(),
            strip_front(text@, '[') == strip_front(text@.subrange(i as int, n as int), '['),
        decreases n - i,
    {
        assert(text@.subrange(i as int, n as int).drop_first() =~= text@.subrange(
            i + 1,
            n as int,
        ));
        i = i + 1;
    }
    let ghost front = text@.subrange(i as int, n as int);
    assert(strip_front(text@, '[') == front);
    let mut j: usize = n;
    while j > i && text.get_char(j - 1) == ']'
        invariant
            i <= j <= n,
            n == text@.len(),
            front == text@.subrange(i as int, n as int),
            strip_back(front, ']') == strip_back(text@.subrange(i as int, j as int), ']'),
        decreases j,
    {
        assert(text@.subrange(i as int, j as int).drop_last() =~= text@.subrange(
            i as int,
            j - 1,
        ));
        j = j - 1;
    }
    text.substring_char(i, j)
}

/// Cuts `text` at every comma.
pub fn split_commas(text: &str) -> (r: Vec<String>)
    ensures
        r.deep_view() == pieces(text@, ','),
        r@.len() >= 1,
{
    let n = text.unicode_len();
    let mut out: Vec<String> = Vec::new();
    let mut start: usize = 0;
    let mut i: usize = 0;
    assert(text@.subrange(0, 0) =~= Seq::<char>::empty());
    assert(out@.map_values(|p: String| p@) =~= Seq::<Seq<char>>::empty());
    assert(pieces(Seq::<char>::empty(), ',') =~= seq![Seq::<char>::empty()]);
    while i < n
        invariant
            start <= i <= n,
            n == text@.len(),
            pieces(text@.subrange(0, i as int), ',') == out@.map_values(|p: String| p@).push(
                text@.subrange(start as int, i as int),
            ),
        decreases n - i,
    {
        let ghost prev = out@.map_values(|p: String| p@);
        assert(text@.subrange(0, i + 1).drop_last() =~= text@.subrange(0, i as int));
        if text.get_char(i) == ',' {
            let piece = String::from_str(text.substring_char(start, i));
            out.push(piece);
            start = i + 1;
            assert(out@.map_values(|p: String| p@) =~= prev.push(piece@));
            assert(text@.subrange(start as int, i + 1) =~= Seq::<char>::empty());
        } else {
            assert(text@.subrange(start as int, i + 1) =~= text@.subrange(
                start as int,
                i as int,
            ).push(text@[i as int]));
            assert(prev.push(text@.subrange(start as int, i as int)).update(
                prev.len() as int,
                text@.subrange(start as int, i + 1),
            ) =~= prev.push(text@.subrange(start as int, i + 1)));
        }
        i = i + 1;
    }
    let last = String::from_str(text.substring_char(start, n));
    let ghost prev = out@.map_values(|p: String| p@);
    out.push(last);
    assert(text@.subrange(0, n as int) =~= text@);
    assert(out@.map_values(|p: String| p@) =~= prev.push(last@));
    proof {
        lemma_pieces_len(text@, ',');
    }
    assert(out.deep_view() =~= out@.map_values(|p: String| p@));
    out
}

/// Writes `n` in decimal.
pub fn decimal_text(n: usize) -> (r: String)
    ensures
        r@ == decimal(n as nat),
    decreases n,
{
    let digits = "0123456789";
    proof {
        reveal_strlit("0123456789");
    }
    let d = n % 10;
    let last = digits.substring_char(d, d + 1);
    assert(last@ =~= seq![digit(d as nat)]);
    if n < 10 {
        String::from_str(last)
    } else {
        let mut r = decimal_text(n / 10);
        r.append(last);
        r
    }
}

} // verus!
