use vstd::prelude::*;
use vstd::string::*;
use crate::text::{chars_of, find_last, last_index_of, lemma_last_index_of_range, line_spans, lines_of};

verus! {

/// A variable name and its value, as character sequences.
pub type EnvPair = (Seq<char>, Seq<char>);

/// Whether a line of an environment dump starts a new variable.
pub open spec fn starts_entry(line: Seq<char>) -> bool {
    last_index_of(line, '=') >= 0
}

/// The name on a line that starts a variable: everything before the last
/// `=`.
pub open spec fn entry_key(line: Seq<char>) -> Seq<char> {
    line.take(last_index_of(line, '='))
}

/// The value on a line that starts a variable: the text after the last `=`.
pub open spec fn entry_value(line: Seq<char>) -> Seq<char> {
    line.skip(last_index_of(line, '=') + 1)
}

/// `done` with the pending variable added. Every pending variable is
/// committed, one with an empty name (a line `=value`) too; lines before the
/// first `=` line belong to no variable and are dropped.
pub open spec fn commit(done: Seq<EnvPair>, pending: Option<EnvPair>) -> Seq<EnvPair> {
    match pending {
        Some(p) => done.push(p),
        None => done,
    }
}

/// One line read: a line with `=` commits the pending variable and starts
/// another; any other line continues the pending value on a new line.
pub open spec fn env_step(st: (Seq<EnvPair>, Option<EnvPair>), line: Seq<char>) -> (
    Seq<EnvPair>,
    Option<EnvPair>,
) {
    if starts_entry(line) {
        (commit(st.0, st.1), Some((entry_key(line), entry_value(line))))
    } else {
        match st.1 {
            Some(p) => (st.0, Some((p.0, p.1 + seq!['\n'] + line))),
            None => st,
        }
    }
}

/// The variables committed and the one pending after reading `lines`.
pub open spec fn env_state(lines: Seq<Seq<char>>) -> (Seq<EnvPair>, Option<EnvPair>)
    decreases lines.len(),
{
    if lines.len() == 0 {
        (Seq::<EnvPair>::empty(), None::<EnvPair>)
    } else {
        env_step(env_state(lines.drop_last()), lines.last())
    }
}

/// The variables that an environment dump sets, in order of appearance.
pub open spec fn env_entries(text: Seq<char>) -> Seq<EnvPair> {
    let st = env_state(lines_of(text));
    commit(st.0, st.1)
}

/// The views of name/value pairs.
pub open spec fn pair_views(v: Seq<(String, String)>) -> Seq<EnvPair> {
    v.map_values(|p: (String, String)| (p.0@, p.1@))
}

/// The views of a pending pair.
pub open spec fn pending_view(p: Option<(String, String)>) -> Option<EnvPair> {
    match p {
        Some(q) => Some((q.0@, q.1@)),
        None => None,
    }
}

fn commit_pending(done: &mut Vec<(String, String)>, pending: Option<(String, String)>)
    ensures
        pair_views(final(done)@) == commit(pair_views(old(done)@), pending_view(pending)),
{
    let ghost before = done@;
    match pending {
        Some(p) => {
            done.push(p);
            assert(pair_views(done@) =~= pair_views(before).push((p.0@, p.1@)));
        },
        None => {},
    }
}

/// Reads an environment dump of `NAME=VALUE` lines, where a value may go on
/// over the lines that follow, into the variables it sets. A line is split
/// at its last `=`.
pub fn parse_env_file(text: &str) -> (r: Vec<(String, String)>)
    ensures
        pair_views(r@) == env_entries(text@),
{
    let chars = chars_of(text);
    let spans = line_spans(&chars);
    let ghost lines = lines_of(text@);
    let mut done: Vec<(String, String)> = Vec::new();
    let mut pending: Option<(String, String)> = None;
    let mut k: usize = 0;
    assert(lines.take(0) =~= Seq::<Seq<char>>::empty());
    assert(pair_views(done@) =~= Seq::<EnvPair>::empty());
    while k < spans.len()
        invariant
            chars@ == text@,
            lines == lines_of(text@),
            spans@.len() == lines.len(),
            forall|j: int|
                0 <= j < spans@.len() ==> {
                    &&& (#[trigger] spans@[j]).0 <= spans@[j].1 <= chars@.len()
                    &&& chars@.subrange(spans@[j].0 as int, spans@[j].1 as int) == lines[j]
                },
            k <= spans@.len(),
            (pair_views(done@), pending_view(pending)) == env_state(lines.take(k as int)),
        decreases spans@.len() - k,
    {
        let (a, b) = spans[k];
        let line = text.substring_char(a, b);
        let lc = chars_of(line);
        let n = lc.len();
        assert(lc@.take(n as int) =~= line@);
        let eq = find_last(&lc, n, '=');
        let ghost st = (pair_views(done@), pending_view(pending));
        match eq {
            Some(e) => {
                proof {
                    lemma_last_index_of_range(line@, '=');
                }
                let key = String::from_str(line.substring_char(0, e));
                assert(line@.subrange(0, e as int) =~= line@.take(e as int));
                let value = String::from_str(line.substring_char(e + 1, n));
                commit_pending(&mut done, pending);
                pending = Some((key, value));
            },
            None => {
                match pending {
                    Some((key, mut value)) => {
                        value.append("\n");
                        proof {
                            reveal_strlit("\n");
                        }
                        value.append(line);
                        pending = Some((key, value));
                    },
                    None => {},
                }
            },
        }
        assert(lines.take(k + 1).drop_last() =~= lines.take(k as int));
        assert(line@ == lines[k as int]);
        assert(lines.take(k + 1).last() == lines[k as int]);
        assert((pair_views(done@), pending_view(pending)) == env_step(st, line@));

        k = k + 1;
    }
    assert(lines.take(k as int) =~= lines);
    commit_pending(&mut done, pending);
    done
}

} // verus!
