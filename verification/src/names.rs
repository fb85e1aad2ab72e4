//! Deriving human-readable labels and generated-name slugs from resource
//! type identifiers such as `azurerm/networking/virtual_network`.

use vstd::prelude::*;
use vstd::string::*;

use crate::text::{
    after_last_slash, last_segment, lower, push_char, take_prefix, upper_char, upper_char_exec,
};

verus! {

/// Characters that separate words when a type id's last segment is humanized.
pub open spec fn is_word_sep(c: char) -> bool {
    c == ' ' || c == '_'
}

/// Words of `s` split on separators, empties dropped, with `cur` the word
/// being accumulated from earlier characters.
pub open spec fn words_acc(s: Seq<char>, cur: Seq<char>) -> Seq<Seq<char>>
    decreases s.len(),
{
    if s.len() == 0 {
        if cur.len() == 0 {
            Seq::empty()
        } else {
            seq![cur]
        }
    } else if is_word_sep(s[0]) {
        if cur.len() == 0 {
            words_acc(s.drop_first(), Seq::empty())
        } else {
            seq![cur] + words_acc(s.drop_first(), Seq::empty())
        }
    } else {
        words_acc(s.drop_first(), cur.push(s[0]))
    }
}

/// The non-empty words of `s`, split on spaces and underscores.
pub open spec fn words_of(s: Seq<char>) -> Seq<Seq<char>> {
    words_acc(s, Seq::empty())
}

/// A word with its first character ASCII-upper-cased.
pub open spec fn cap_word(w: Seq<char>) -> Seq<char> {
    if w.len() == 0 {
        w
    } else {
        w.update(0, upper_char(w[0]))
    }
}

/// Words joined by single spaces.
pub open spec fn join_spaces(ws: Seq<Seq<char>>) -> Seq<char>
    decreases ws.len(),
{
    if ws.len() == 0 {
        Seq::empty()
    } else if ws.len() == 1 {
        ws[0]
    } else {
        join_spaces(ws.drop_last()) + seq![' '] + ws[ws.len() - 1]
    }
}

/// The display label derived from a type id: its last path segment,
/// underscores as spaces, each word capitalized.
pub open spec fn display_name_of(type_id: Seq<char>) -> Seq<char> {
    join_spaces(words_of(after_last_slash(type_id)).map_values(|w: Seq<char>| cap_word(w)))
}

/// The slug used in generated resource names: the last path segment of the
/// type id, truncated to twenty characters.
pub open spec fn slug_of(type_id: Seq<char>) -> Seq<char> {
    let seg = after_last_slash(type_id);
    if seg.len() <= 20 {
        seg
    } else {
        seg.subrange(0, 20)
    }
}

/// A copy of the word with its first character upper-cased.
fn capitalize(w: &str) -> (r: String)
    ensures
        r@ == cap_word(w@),
{
    let n = w.unicode_len();
    if n == 0 {
        let r = String::new();
        proof {
            assert(r@ =~= cap_word(w@));
        }
        r
    } else {
        let mut r = String::new();
        let c = upper_char_exec(w.get_char(0));
        push_char(&mut r, c);
        let rest = w.substring_char(1, n);
        r.append(rest);
        proof {
            assert(r@ =~= cap_word(w@));
        }
        r
    }
}

/// The non-empty words of a string, split on spaces and underscores.
fn split_words(s: &str) -> (words: Vec<String>)
    ensures
        words@.map_values(|w: String| w@) == words_of(s@),
{
    let n = s.unicode_len();
    let mut words: Vec<String> = Vec::new();
    let mut cur = String::new();
    let mut i: usize = 0;
    proof {
        assert(s@.subrange(0, n as int) =~= s@);
        assert(words@.map_values(|w: String| w@) + words_acc(
            s@.subrange(0, n as int),
            cur@,
        ) =~= words_of(s@));
    }
    while i < n
        invariant
            n == s@.len(),
            i <= n,
            words_of(s@) == words@.map_values(|w: String| w@) + words_acc(
                s@.subrange(i as int, n as int),
                cur@,
            ),
        decreases n - i,
    {
        let ghost prev_words = words@;
        let ghost prev_cur = cur@;
        let ghost rest = s@.subrange(i as int, n as int);
        let ghost rest1 = s@.subrange(i + 1, n as int);
        proof {
            assert(rest[0] == s@[i as int]);
            assert(rest.drop_first() =~= rest1);
        }
        let c = s.get_char(i);
        if c == ' ' || c == '_' {
            if cur.unicode_len() > 0 {
                words.push(cur);
                cur = String::new();
            }
            proof {
                if prev_cur.len() == 0 {
                    assert(prev_cur =~= Seq::<char>::empty());
                    assert(cur@ =~= Seq::<char>::empty());
                    assert(words_acc(rest, prev_cur) == words_acc(rest1, cur@));
                } else {
                    lemma_map_view_push(prev_words, words@[words@.len() - 1]);
                    assert(words@.map_values(|w: String| w@) =~= prev_words.map_values(
                        |w: String| w@,
                    ).push(prev_cur));
                    assert(words_acc(rest, prev_cur) == seq![prev_cur] + words_acc(rest1, cur@));
                    assert(words@.map_values(|w: String| w@) + words_acc(rest1, cur@)
                        =~= prev_words.map_values(|w: String| w@) + (seq![prev_cur] + words_acc(
                        rest1,
                        cur@,
                    )));
                }
            }
        } else {
            push_char(&mut cur, c);
            proof {
                assert(cur@ =~= prev_cur.push(rest[0]));
                assert(words_acc(rest, prev_cur) == words_acc(rest1, cur@));
            }
        }
        i = i + 1;
    }
    if cur.unicode_len() > 0 {
        let ghost prev_words = words@;
        let ghost prev_cur = cur@;
        words.push(cur);
        proof {
            lemma_map_view_push(prev_words, words@[words@.len() - 1]);
            assert(s@.subrange(n as int, n as int) =~= Seq::<char>::empty());
            assert(words_acc(s@.subrange(n as int, n as int), prev_cur) == seq![prev_cur]);
            assert(words@.map_values(|w: String| w@) =~= words_of(s@));
        }
    } else {
        proof {
            assert(s@.subrange(n as int, n as int) =~= Seq::<char>::empty());
            assert(words_acc(s@.subrange(n as int, n as int), cur@) =~= Seq::<Seq<char>>::empty());
            assert(words@.map_values(|w: String| w@) =~= words_of(s@));
        }
    }
    words
}

proof fn lemma_map_view_push(v: Seq<String>, x: String)
    ensures
        (v.push(x)).map_values(|w: String| w@) =~= v.map_values(|w: String| w@).push(x@),
{
}

/// The display label for a resource type id: last path segment, underscores
/// as spaces, words capitalized (capitalization is ASCII-only).
pub fn get_display_name(type_id: &str) -> (r: String)
    ensures
        r@ == display_name_of(type_id@),
{
    let seg = last_segment(type_id);
    let raw_words = split_words(seg.as_str());
    let mut capped: Vec<String> = Vec::new();
    let mut k: usize = 0;
    while k < raw_words.len()
        invariant
            k <= raw_words@.len(),
            capped@.len() == k,
            forall|j: int| 0 <= j < k ==> capped@[j]@ == cap_word(raw_words@[j]@),
        decreases raw_words@.len() - k,
    {
        let w = capitalize(raw_words[k].as_str());
        capped.push(w);
        k = k + 1;
    }
    let ghost goal = words_of(seg@).map_values(|w: Seq<char>| cap_word(w));
    proof {
        assert(capped@.map_values(|w: String| w@) =~= goal);
    }
    let mut out = String::new();
    let mut j: usize = 0;
    while j < capped.len()
        invariant
            j <= capped@.len(),
            goal == capped@.map_values(|w: String| w@),
            out@ == join_spaces(goal.subrange(0, j as int)),
        decreases capped@.len() - j,
    {
        if j > 0 {
            push_char(&mut out, ' ');
        }
        out.append(capped[j].as_str());
        proof {
            let sub = goal.subrange(0, j + 1);
            assert(sub.drop_last() =~= goal.subrange(0, j as int));
            assert(sub[sub.len() - 1] == capped@[j as int]@);
            if j == 0 {
                assert(out@ =~= join_spaces(sub));
            } else {
                assert(out@ =~= join_spaces(sub));
            }
        }
        j = j + 1;
    }
    proof {
        assert(goal.subrange(0, goal.len() as int) =~= goal);
    }
    out
}

/// The truncated last path segment used in generated resource names.
pub fn type_slug(type_id: &str) -> (r: String)
    ensures
        r@ == slug_of(type_id@),
{
    let seg = last_segment(type_id);
    take_prefix(seg.as_str(), 20)
}

} // verus!
