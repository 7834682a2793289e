//! Command lines handed over by the script: splitting them into an executable
//! and its arguments, and deciding whether a "run once" request may spawn.

use vstd::prelude::*;
use vstd::string::*;

verus! {

/// The code points with the Unicode `White_Space` property, which is what
/// `char::is_whitespace` tests.
pub open spec fn is_space(c: char) -> bool {
    let n = c as u32;
    ||| 0x09 <= n <= 0x0d
    ||| n == 0x20
    ||| n == 0x85
    ||| n == 0xa0
    ||| n == 0x1680
    ||| 0x2000 <= n <= 0x200a
    ||| n == 0x2028
    ||| n == 0x2029
    ||| n == 0x202f
    ||| n == 0x205f
    ||| n == 0x3000
}

/// Index just past the run of non-space characters that starts at `i`.
pub open spec fn word_end(s: Seq<char>, i: int) -> int
    decreases s.len() - i,
{
    if i < 0 || i >= s.len() || is_space(s[i]) {
        i
    } else {
        word_end(s, i + 1)
    }
}

/// The whitespace-separated words of `s` from index `i` on, in order.
pub open spec fn tokens_from(s: Seq<char>, i: int) -> Seq<Seq<char>>
    decreases s.len() - i,
{
    if i < 0 || i >= s.len() {
        Seq::empty()
    } else if is_space(s[i]) {
        tokens_from(s, i + 1)
    } else {
        let e = word_end(s, i);
        if e <= i || e > s.len() {
            Seq::empty()
        } else {
            seq![s.subrange(i, e)] + tokens_from(s, e)
        }
    }
}

/// The whitespace-separated words of `s`: maximal runs of non-space
/// characters, none of them empty.
pub open spec fn tokens(s: Seq<char>) -> Seq<Seq<char>> {
    tokens_from(s, 0)
}

/// The views of a sequence of strings.
pub open spec fn views(v: Seq<String>) -> Seq<Seq<char>> {
    v.map_values(|w: String| w@)
}

/// Index of the last `'/'` in `s`, or -1 where there is none.
pub open spec fn last_slash(s: Seq<char>) -> int
    decreases s.len(),
{
    if s.len() == 0 {
        -1
    } else if s.last() == '/' {
        s.len() - 1
    } else {
        last_slash(s.drop_last())
    }
}

/// What follows the last `'/'` of `s`; all of `s` where it has none.
pub open spec fn base_name(s: Seq<char>) -> Seq<char> {
    s.subrange(last_slash(s) + 1, s.len() as int)
}

/// The key under which a command line is deduplicated: the base name of its
/// executable, whatever its arguments. A blank command line has none.
pub open spec fn dedup_key(cmd: Seq<char>) -> Option<Seq<char>> {
    if tokens(cmd).len() == 0 {
        None
    } else {
        Some(base_name(tokens(cmd)[0]))
    }
}

/// Whether some process in `running` carries the name `name`.
pub open spec fn name_is_running(name: Seq<char>, running: Seq<Seq<char>>) -> bool {
    exists|i: int| 0 <= i < running.len() && #[trigger] running[i] == name
}

/// Whether a "run once" request for `cmd` spawns anything, given the names
/// of the processes that are running.
pub open spec fn spawns_once(cmd: Seq<char>, running: Seq<Seq<char>>) -> bool {
    match dedup_key(cmd) {
        Some(key) => !name_is_running(key, running),
        None => false,
    }
}

pub proof fn lemma_word_end_bounds(s: Seq<char>, i: int)
    requires
        0 <= i <= s.len(),
    ensures
        i <= word_end(s, i) <= s.len(),
        i < s.len() && !is_space(s[i]) ==> i < word_end(s, i),
        forall|j: int| i <= j < word_end(s, i) ==> !is_space(#[trigger] s[j]),
        word_end(s, i) < s.len() ==> is_space(s[word_end(s, i)]),
    decreases s.len() - i,
{
    if i < s.len() && !is_space(s[i]) {
        lemma_word_end_bounds(s, i + 1);
    }
}

/// Every word is non-empty and free of whitespace.
pub proof fn lemma_tokens_are_words(s: Seq<char>, i: int)
    requires
        0 <= i <= s.len(),
    ensures
        forall|k: int|
            0 <= k < tokens_from(s, i).len() ==> (#[trigger] tokens_from(s, i)[k]).len() > 0,
        forall|k: int, j: int|
            0 <= k < tokens_from(s, i).len() && 0 <= j < tokens_from(s, i)[k].len() ==> !is_space(
                #[trigger] tokens_from(s, i)[k][j],
            ),
    decreases s.len() - i,
{
    if i < s.len() {
        if is_space(s[i]) {
            lemma_tokens_are_words(s, i + 1);
            assert(tokens_from(s, i) == tokens_from(s, i + 1));
        } else {
            let e = word_end(s, i);
            lemma_word_end_bounds(s, i);
            lemma_tokens_are_words(s, e);
            let rest = tokens_from(s, e);
            let all = tokens_from(s, i);
            assert(all == seq![s.subrange(i, e)] + rest);
            assert(all[0] == s.subrange(i, e));
            assert forall|k: int| 0 <= k < all.len() implies (#[trigger] all[k]).len() > 0 by {
                if k > 0 {
                    assert(all[k] == rest[k - 1]);
                }
            }
            assert forall|k: int, j: int|
                0 <= k < all.len() && 0 <= j < all[k].len() implies !is_space(
                #[trigger] all[k][j],
            ) by {
                if k > 0 {
                    assert(all[k] == rest[k - 1]);
                } else {
                    assert(all[0][j] == s[i + j]);
                }
            }
        }
    }
}

/// Tests the Unicode `White_Space` property of a character.
pub fn is_whitespace(c: char) -> (b: bool)
    ensures
        b == is_space(c),
{
    let n: u32 = c as u32;
    (0x09 <= n && n <= 0x0d) || n == 0x20 || n == 0x85 || n == 0xa0 || n == 0x1680 || (0x2000 <= n
        && n <= 0x200a) || n == 0x2028 || n == 0x2029 || n == 0x202f || n == 0x205f || n == 0x3000
}

/// Splits `s` at whitespace into its words, as `str::split_whitespace` does.
pub fn split_words(s: &str) -> (words: Vec<String>)
    ensures
        views(words@) == tokens(s@),
{
    let n: usize = s.unicode_len();
    let mut words: Vec<String> = Vec::new();
    let mut i: usize = 0;
    assert(views(words@) =~= Seq::<Seq<char>>::empty());
    while i < n
        invariant
            n == s@.len(),
            i <= n,
            views(words@) + tokens_from(s@, i as int) == tokens(s@),
        decreases n - i,
    {
        let c = s.get_char(i);
        if is_whitespace(c) {
            i = i + 1;
        } else {
            let start: usize = i;
            proof {
                lemma_word_end_bounds(s@, start as int);
            }
            while i < n && !is_whitespace(s.get_char(i))
                invariant
                    n == s@.len(),
                    start <= i <= n,
                    word_end(s@, start as int) == word_end(s@, i as int),
                decreases n - i,
            {
                i = i + 1;
            }
            let word = s.substring_char(start, i).to_owned();
            proof {
                let ghost_before = views(words@);
                assert(word_end(s@, i as int) == i);
                assert(tokens_from(s@, start as int) == seq![s@.subrange(start as int, i as int)]
                    + tokens_from(s@, i as int));
                assert(views(words@.push(word)) =~= ghost_before + seq![word@]);
                assert(ghost_before + (seq![word@] + tokens_from(s@, i as int)) =~= (ghost_before
                    + seq![word@]) + tokens_from(s@, i as int));
            }
            words.push(word);
        }
    }
    assert(tokens_from(s@, n as int) =~= Seq::<Seq<char>>::empty());
    assert(views(words@) + Seq::<Seq<char>>::empty() =~= views(words@));
    words
}

/// Parts a non-empty list of words into the first word and the others.
fn head_and_tail(words: Vec<String>) -> (r: (String, Vec<String>))
    requires
        words@.len() > 0,
    ensures
        r.0@ == views(words@)[0],
        views(r.1@) == views(words@).skip(1),
{
    let mut words = words;
    let ghost all = words@;
    let program = words.remove(0);
    proof {
        assert(views(all)[0] == all[0]@);
        assert(views(words@) =~= views(all).skip(1));
    }
    (program, words)
}

/// Splits a command line into the executable and its arguments.
///
/// The line must hold at least one word.
pub fn get_args(cmd: String) -> (r: (String, Vec<String>))
    requires
        tokens(cmd@).len() > 0,
    ensures
        r.0@ == tokens(cmd@)[0],
        views(r.1@) == tokens(cmd@).skip(1),
{
    let words = split_words(cmd.as_str());
    assert(views(words@).len() == words@.len());
    head_and_tail(words)
}

/// Splits a command line into the executable and its arguments, or gives
/// `None` where the line holds no word at all.
pub fn split_command(cmd: &str) -> (r: Option<(String, Vec<String>)>)
    ensures
        r is None <==> tokens(cmd@).len() == 0,
        r matches Some(p) ==> p.0@ == tokens(cmd@)[0] && views(p.1@) == tokens(cmd@).skip(1),
{
    let words = split_words(cmd);
    assert(views(words@).len() == words@.len());
    if words.len() == 0 {
        None
    } else {
        Some(head_and_tail(words))
    }
}

/// The base name of an executable: what follows its last `'/'`.
pub fn executable_name(word: &str) -> (name: String)
    ensures
        name@ == base_name(word@),
{
    let n: usize = word.unicode_len();
    let mut i: usize = n;
    assert(word@.subrange(0, n as int) =~= word@);
    while i > 0 && word.get_char(i - 1) != '/'
        invariant
            n == word@.len(),
            i <= n,
            last_slash(word@) == last_slash(word@.subrange(0, i as int)),
        decreases i,
    {
        proof {
            let prefix = word@.subrange(0, i as int);
            assert(prefix.last() == word@[i - 1]);
            assert(prefix.drop_last() =~= word@.subrange(0, i - 1));
        }
        i = i - 1;
    }
    proof {
        let prefix = word@.subrange(0, i as int);
        if i > 0 {
            assert(prefix.last() == word@[i - 1]);
        }
        assert(last_slash(prefix) == i - 1);
    }
    word.substring_char(i, n).to_owned()
}

/// Tells whether some process in `running` carries the name `name`.
pub fn is_running(name: &String, running: &Vec<String>) -> (b: bool)
    ensures
        b == name_is_running(name@, views(running@)),
{
    let mut i: usize = 0;
    while i < running.len()
        invariant
            i <= running.len(),
            forall|j: int| 0 <= j < i ==> (#[trigger] views(running@)[j]) != name@,
        decreases running.len() - i,
    {
        assert(views(running@)[i as int] == running@[i as int]@);
        if running[i] == *name {
            return true;
        }
        i = i + 1;
    }
    assert(views(running@).len() == running@.len());
    false
}

/// Decides whether a "run once" request for `cmd` spawns a process, given
/// the names of the processes that are running: it does unless the command
/// line is blank or a process with the executable's base name is among them.
pub fn should_spawn_once(cmd: &str, running: &Vec<String>) -> (spawn: bool)
    ensures
        spawn == spawns_once(cmd@, views(running@)),
{
    match split_command(cmd) {
        Some(p) => {
            let key = executable_name(p.0.as_str());
            !is_running(&key, running)
        },
        None => false,
    }
}

} // verus!
