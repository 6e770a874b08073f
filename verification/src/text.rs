use vstd::prelude::*;

verus! {

/// ASCII letters and digits, the characters that `char::is_ascii_alphanumeric` accepts.
pub open spec fn is_ascii_alnum(c: char) -> bool {
    ||| ('0' <= c && c <= '9')
    ||| ('a' <= c && c <= 'z')
    ||| ('A' <= c && c <= 'Z')
}

/// The character that `char::to_ascii_lowercase` gives back.
pub open spec fn ascii_lower(c: char) -> char {
    if 'A' <= c && c <= 'Z' {
        ((c as int) + 32) as char
    } else {
        c
    }
}

/// The character that `char::to_ascii_uppercase` gives back.
pub open spec fn ascii_upper(c: char) -> char {
    if 'a' <= c && c <= 'z' {
        ((c as int) - 32) as char
    } else {
        c
    }
}

/// The maximal runs of characters that are not separators, in the order
/// in which they occur in `s`.
pub open spec fn words(s: Seq<char>, is_sep: spec_fn(char) -> bool) -> Seq<Seq<char>>
    decreases s.len(),
{
    if s.len() == 0 {
        Seq::empty()
    } else {
        let prefix = s.drop_last();
        let c = s.last();
        let ws = words(prefix, is_sep);
        if is_sep(c) {
            ws
        } else if prefix.len() > 0 && !is_sep(prefix.last()) {
            ws.drop_last().push(ws.last().push(c))
        } else {
            ws.push(seq![c])
        }
    }
}

/// The pieces of `ws` written one after the other with `sep` between
/// each two neighbours.
pub open spec fn join(ws: Seq<Seq<char>>, sep: char) -> Seq<char>
    decreases ws.len(),
{
    if ws.len() == 0 {
        Seq::empty()
    } else if ws.len() == 1 {
        ws[0]
    } else {
        join(ws.drop_last(), sep).push(sep) + ws.last()
    }
}

/// Every word is non-empty and holds no separator; a text whose last
/// character is not a separator has at least one word.
pub proof fn lemma_words_shape(s: Seq<char>, is_sep: spec_fn(char) -> bool)
    ensures
        forall|i: int|
            0 <= i < words(s, is_sep).len() ==> #[trigger] words(s, is_sep)[i].len() > 0,
        forall|i: int, j: int|
            0 <= i < words(s, is_sep).len() && 0 <= j < words(s, is_sep)[i].len() ==> !is_sep(
                #[trigger] words(s, is_sep)[i][j],
            ),
        s.len() > 0 && !is_sep(s.last()) ==> words(s, is_sep).len() > 0,
        s.len() == 0 ==> words(s, is_sep).len() == 0,
        words(s, is_sep).len() == 0 ==> forall|i: int| 0 <= i < s.len() ==> is_sep(#[trigger] s[i]),
    decreases s.len(),
{
    if s.len() > 0 {
        let prefix = s.drop_last();
        lemma_words_shape(prefix, is_sep);
        let ws = words(prefix, is_sep);
        let c = s.last();
        if is_sep(c) {
            if ws.len() == 0 {
                assert forall|i: int| 0 <= i < s.len() implies is_sep(#[trigger] s[i]) by {
                    if i < s.len() - 1 {
                        assert(s[i] == prefix[i]);
                    }
                }
            }
        } else if prefix.len() > 0 && !is_sep(prefix.last()) {
            let nw = ws.drop_last().push(ws.last().push(c));
            assert forall|i: int, j: int|
                0 <= i < nw.len() && 0 <= j < nw[i].len() implies !is_sep(#[trigger] nw[i][j]) by {
                if i == nw.len() - 1 {
                    if j < ws.last().len() {
                        assert(nw[i][j] == ws[ws.len() - 1][j]);
                    }
                } else {
                    assert(nw[i] == ws[i]);
                }
            }
        } else {
            let nw = ws.push(seq![c]);
            assert forall|i: int, j: int|
                0 <= i < nw.len() && 0 <= j < nw[i].len() implies !is_sep(#[trigger] nw[i][j]) by {
                if i < ws.len() {
                    assert(nw[i] == ws[i]);
                }
            }
        }
    }
}

/// Appending a word to a list adds a separator and the word to the join.
pub proof fn lemma_join_push(ws: Seq<Seq<char>>, w: Seq<char>, sep: char)
    ensures
        join(ws.push(w), sep) == if ws.len() == 0 {
            w
        } else {
            join(ws, sep).push(sep) + w
        },
{
    assert(ws.push(w).drop_last() =~= ws);
}

/// Extending the last word by one character extends the join by that character.
pub proof fn lemma_join_extend_last(ws: Seq<Seq<char>>, c: char, sep: char)
    requires
        ws.len() > 0,
    ensures
        join(ws.drop_last().push(ws.last().push(c)), sep) == join(ws, sep).push(c),
{
    let nw = ws.drop_last().push(ws.last().push(c));
    assert(nw.drop_last() =~= ws.drop_last());
    if ws.len() == 1 {
        assert(nw[0] == ws[0].push(c));
    } else {
        assert(join(nw, sep) == join(ws.drop_last(), sep).push(sep) + ws.last().push(c));
        assert(join(ws.drop_last(), sep).push(sep) + ws.last().push(c) =~= (join(
            ws.drop_last(),
            sep,
        ).push(sep) + ws.last()).push(c));
    }
}

/// The first character of a join is that of its first word, the last that of its last word.
pub proof fn lemma_join_ends(ws: Seq<Seq<char>>, sep: char)
    requires
        ws.len() > 0,
        forall|i: int| 0 <= i < ws.len() ==> #[trigger] ws[i].len() > 0,
    ensures
        join(ws, sep).len() > 0,
        join(ws, sep)[0] == ws[0][0],
        join(ws, sep).last() == ws.last().last(),
    decreases ws.len(),
{
    if ws.len() > 1 {
        lemma_join_ends(ws.drop_last(), sep);
        assert(ws.drop_last()[0] == ws[0]);
    }
}

/// Every character of a join is a separator or a character of one of the words.
pub proof fn lemma_join_chars(ws: Seq<Seq<char>>, sep: char, ok: spec_fn(char) -> bool)
    requires
        ok(sep),
        forall|i: int, j: int| 0 <= i < ws.len() && 0 <= j < ws[i].len() ==> ok(#[trigger] ws[i][j]),
    ensures
        forall|k: int| 0 <= k < join(ws, sep).len() ==> ok(#[trigger] join(ws, sep)[k]),
    decreases ws.len(),
{
    if ws.len() == 1 {
        assert forall|k: int| 0 <= k < join(ws, sep).len() implies ok(#[trigger] join(ws, sep)[k]) by {
            assert(ok(ws[0][k]));
        }
    } else if ws.len() > 1 {
        let init = ws.drop_last();
        assert forall|i: int, j: int| 0 <= i < init.len() && 0 <= j < init[i].len() implies ok(
            #[trigger] init[i][j],
        ) by {
            assert(init[i] == ws[i]);
        }
        lemma_join_chars(init, sep, ok);
        let a = join(init, sep).push(sep);
        assert forall|k: int| 0 <= k < join(ws, sep).len() implies ok(#[trigger] join(ws, sep)[k]) by {
            if k < a.len() - 1 {
                assert(join(ws, sep)[k] == join(init, sep)[k]);
            } else if k >= a.len() {
                assert(join(ws, sep)[k] == ws[ws.len() - 1][k - a.len()]);
            }
        }
    }
}

/// A text made only of separators has no words.
pub proof fn lemma_words_all_sep(s: Seq<char>, is_sep: spec_fn(char) -> bool)
    requires
        forall|i: int| 0 <= i < s.len() ==> is_sep(#[trigger] s[i]),
    ensures
        words(s, is_sep).len() == 0,
    decreases s.len(),
{
    if s.len() > 0 {
        let p = s.drop_last();
        assert forall|i: int| 0 <= i < p.len() implies is_sep(#[trigger] p[i]) by {
            assert(p[i] == s[i]);
        }
        lemma_words_all_sep(p, is_sep);
        assert(is_sep(s[s.len() - 1]));
    }
}

/// A word appended behind a separator (or to nothing) becomes the last word.
pub proof fn lemma_words_append_word(x: Seq<char>, w: Seq<char>, is_sep: spec_fn(char) -> bool)
    requires
        w.len() > 0,
        forall|j: int| 0 <= j < w.len() ==> !is_sep(#[trigger] w[j]),
        x.len() == 0 || is_sep(x.last()),
    ensures
        words(x + w, is_sep) == words(x, is_sep).push(w),
    decreases w.len(),
{
    let s = x + w;
    if w.len() == 1 {
        assert(s.drop_last() =~= x);
        assert(s.last() == w[0]);
        assert(seq![w[0]] =~= w);
    } else {
        let w1 = w.drop_last();
        assert forall|j: int| 0 <= j < w1.len() implies !is_sep(#[trigger] w1[j]) by {
            assert(w1[j] == w[j]);
        }
        lemma_words_append_word(x, w1, is_sep);
        assert(s.drop_last() =~= x + w1);
        assert(s.last() == w[w.len() - 1]);
        assert((x + w1).last() == w1[w1.len() - 1]);
        let ws = words(x, is_sep).push(w1);
        assert(ws.drop_last() =~= words(x, is_sep));
        assert(ws.last() == w1);
        assert(w1.push(w.last()) =~= w);
    }
}

/// Splitting a join at its separator gives back the words joined.
pub proof fn lemma_words_of_join(ws: Seq<Seq<char>>, sep: char, is_sep: spec_fn(char) -> bool)
    requires
        is_sep(sep),
        forall|i: int| 0 <= i < ws.len() ==> #[trigger] ws[i].len() > 0,
        forall|i: int, j: int| 0 <= i < ws.len() && 0 <= j < ws[i].len() ==> !is_sep(#[trigger] ws[i][j]),
    ensures
        words(join(ws, sep), is_sep) == ws,
    decreases ws.len(),
{
    if ws.len() == 0 {
    } else if ws.len() == 1 {
        let w = ws[0];
        assert forall|j: int| 0 <= j < w.len() implies !is_sep(#[trigger] w[j]) by {
            assert(!is_sep(ws[0][j]));
        }
        lemma_words_append_word(Seq::empty(), w, is_sep);
        assert(Seq::<char>::empty() + w =~= w);
        assert(Seq::<Seq<char>>::empty().push(w) =~= ws);
    } else {
        let init = ws.drop_last();
        let w = ws.last();
        assert forall|i: int| 0 <= i < init.len() implies #[trigger] init[i].len() > 0 by {
            assert(init[i] == ws[i]);
        }
        assert forall|i: int, j: int| 0 <= i < init.len() && 0 <= j < init[i].len() implies !is_sep(
            #[trigger] init[i][j],
        ) by {
            assert(init[i] == ws[i]);
        }
        assert forall|j: int| 0 <= j < w.len() implies !is_sep(#[trigger] w[j]) by {
            assert(!is_sep(ws[ws.len() - 1][j]));
        }
        assert(w.len() > 0) by {
            assert(ws[ws.len() - 1].len() > 0);
        }
        lemma_words_of_join(init, sep, is_sep);
        let x = join(init, sep).push(sep);
        assert(x.drop_last() =~= join(init, sep));
        assert(words(x, is_sep) == words(join(init, sep), is_sep));
        lemma_words_append_word(x, w, is_sep);
        assert(init.push(w) =~= ws);
    }
}

/// Two separators never stand side by side in a join of non-empty words
/// that hold no separator.
pub proof fn lemma_join_no_double_sep(ws: Seq<Seq<char>>, sep: char)
    requires
        forall|i: int| 0 <= i < ws.len() ==> #[trigger] ws[i].len() > 0,
        forall|i: int, j: int| 0 <= i < ws.len() && 0 <= j < ws[i].len() ==> #[trigger] ws[i][j] != sep,
    ensures
        forall|k: int|
            0 <= k < join(ws, sep).len() - 1 ==> !(#[trigger] join(ws, sep)[k] == sep && join(
                ws,
                sep,
            )[k + 1] == sep),
    decreases ws.len(),
{
    if ws.len() == 1 {
        assert forall|k: int| 0 <= k < join(ws, sep).len() - 1 implies !(#[trigger] join(ws, sep)[k]
            == sep && join(ws, sep)[k + 1] == sep) by {
            assert(ws[0][k] != sep);
        }
    } else if ws.len() > 1 {
        let init = ws.drop_last();
        let w = ws.last();
        assert forall|i: int| 0 <= i < init.len() implies #[trigger] init[i].len() > 0 by {
            assert(init[i] == ws[i]);
        }
        assert forall|i: int, j: int| 0 <= i < init.len() && 0 <= j < init[i].len() implies #[trigger] init[i][j]
            != sep by {
            assert(init[i] == ws[i]);
        }
        lemma_join_no_double_sep(init, sep);
        lemma_join_ends(init, sep);
        let a = join(init, sep);
        let j = join(ws, sep);
        assert(init.last() == ws[ws.len() - 2]);
        assert(a.last() != sep) by {
            assert(ws[ws.len() - 2][ws[ws.len() - 2].len() - 1] != sep);
        }
        assert(w[0] != sep) by {
            assert(ws[ws.len() - 1][0] != sep);
        }
        assert forall|k: int| 0 <= k < j.len() - 1 implies !(#[trigger] j[k] == sep && j[k + 1]
            == sep) by {
            if k < a.len() - 1 {
                assert(j[k] == a[k]);
                assert(j[k + 1] == a[k + 1]);
            } else if k == a.len() - 1 {
                assert(j[k] == a.last());
            } else if k == a.len() {
                assert(j[k + 1] == w[0]);
            } else {
                assert(j[k] == ws[ws.len() - 1][k - a.len() - 1]);
            }
        }
    }
}

/// `t` stands somewhere in `s` as a run of consecutive characters.
pub open spec fn has_infix(s: Seq<char>, t: Seq<char>) -> bool {
    exists|i: int| 0 <= i && i + t.len() <= s.len() && #[trigger] s.subrange(i, i + t.len()) == t
}

/// A text between two others stands in their concatenation.
pub proof fn lemma_infix_middle(x: Seq<char>, t: Seq<char>, y: Seq<char>)
    ensures
        has_infix(x + t + y, t),
{
    let s = x + t + y;
    assert(s.subrange(x.len() as int, (x.len() + t.len()) as int) =~= t);
}

/// Where `t` stands in `s`, the characters of `s` from there on are those of `t`.
pub proof fn lemma_infix_chars(s: Seq<char>, t: Seq<char>) -> (i: int)
    requires
        has_infix(s, t),
    ensures
        0 <= i && i + t.len() <= s.len(),
        forall|k: int| 0 <= k < t.len() ==> s[i + k] == #[trigger] t[k],
{
    let i = choose|i: int| 0 <= i && i + t.len() <= s.len() && #[trigger] s.subrange(i, i + t.len()) == t;
    assert forall|k: int| 0 <= k < t.len() implies s[i + k] == #[trigger] t[k] by {
        assert(s.subrange(i, i + t.len())[k] == s[i + k]);
    }
    i
}

pub(crate) fn char_is_ascii_alnum(c: char) -> (r: bool)
    ensures
        r == is_ascii_alnum(c),
{
    ('0' <= c && c <= '9') || ('a' <= c && c <= 'z') || ('A' <= c && c <= 'Z')
}

pub(crate) fn char_to_ascii_lower(c: char) -> (r: char)
    ensures
        r == ascii_lower(c),
{
    if 'A' <= c && c <= 'Z' {
        let b: u8 = c as u8;
        (b + 32) as char
    } else {
        c
    }
}

pub(crate) fn char_to_ascii_upper(c: char) -> (r: char)
    ensures
        r == ascii_upper(c),
{
    if 'a' <= c && c <= 'z' {
        let b: u8 = c as u8;
        (b - 32) as char
    } else {
        c
    }
}

/// The character of a decimal digit.
pub open spec fn digit_char(d: nat) -> char {
    (d + 48) as char
}

/// The decimal numeral of `n`, without leading zeros.
pub open spec fn decimal(n: nat) -> Seq<char>
    decreases n,
{
    if n < 10 {
        seq![digit_char(n)]
    } else {
        decimal(n / 10).push(digit_char(n % 10))
    }
}

/// The decimal numeral of a port number, as `format!("{}", n)` writes it.
pub(crate) fn u16_text(n: u16) -> (r: String)
    ensures
        r@ == decimal(n as nat),
    decreases n,
{
    let d: u8 = (n % 10) as u8;
    let c: char = (d + 48) as char;
    if n < 10 {
        let mut s = String::new();
        push_char(&mut s, c);
        s
    } else {
        let mut s = u16_text(n / 10);
        push_char(&mut s, c);
        s
    }
}

/// `String::push` from std appends one `char` at the end of the string.
#[verifier::external_body]
pub(crate) fn push_char(s: &mut String, c: char)
    ensures
        final(s)@ == old(s)@.push(c),
{
    s.push(c);
}

} // verus!
