//! Shell-script package specifications.
//!
//! A specification script is a sequence of blocks separated by blank lines;
//! comment lines start with a hash.  Each block must be a single simple
//! shell command of literal or single-quoted words; everything else the
//! shell grammar offers (jobs, pipes, redirects, expansions) is rejected.
//! The shell text itself is read by an outside parser; its result enters
//! this module as a `BlockShape` value carrying exactly what the token
//! extraction reads.

use vstd::prelude::*;

use crate::text::{
    chars_of, join_nl_from, lines_of, spec_join_nl, spec_lines, spec_trim, string_from_chars,
    sub_chars, trim_chars,
};

verus! {

/// The position of the first blank-line separator (two newlines in a row),
/// or -1.
pub open spec fn spec_find_2nl(s: Seq<char>) -> int
    decreases s.len(),
{
    if s.len() < 2 {
        -1
    } else if s[0] == '\n' && s[1] == '\n' {
        0
    } else {
        let r = spec_find_2nl(s.drop_first());
        if r < 0 {
            -1
        } else {
            r + 1
        }
    }
}

/// Two adjacent newlines start at this position.
pub open spec fn spec_sep_at(s: Seq<char>, k: int) -> bool {
    s[k] == '\n' && s[k + 1] == '\n'
}

proof fn lemma_find_2nl_found(s: Seq<char>, i: int)
    requires
        0 <= i,
        i + 2 <= s.len(),
        spec_sep_at(s, i),
        forall|k: int| 0 <= k < i ==> !spec_sep_at(s, k),
    ensures
        spec_find_2nl(s) == i,
    decreases i,
{
    if i == 0 {
        assert(spec_sep_at(s, 0));
    } else {
        assert(!spec_sep_at(s, 0));
        assert(spec_sep_at(s.drop_first(), i - 1));
        assert forall|k: int| 0 <= k < i - 1 implies !spec_sep_at(s.drop_first(), k) by {
            assert(!spec_sep_at(s, k + 1));
        }
        lemma_find_2nl_found(s.drop_first(), i - 1);
    }
}

proof fn lemma_find_2nl_absent(s: Seq<char>)
    requires
        forall|k: int| 0 <= k && k + 2 <= s.len() ==> !spec_sep_at(s, k),
    ensures
        spec_find_2nl(s) == -1,
    decreases s.len(),
{
    if s.len() >= 2 {
        assert(!spec_sep_at(s, 0));
        assert forall|k: int| 0 <= k && k + 2 <= s.drop_first().len() implies !spec_sep_at(
            s.drop_first(),
            k,
        ) by {
            assert(!spec_sep_at(s, k + 1));
        }
        lemma_find_2nl_absent(s.drop_first());
    }
}

/// The pieces of the text between blank-line separators.
pub open spec fn spec_split_2nl(s: Seq<char>) -> Seq<Seq<char>>
    decreases s.len(),
{
    let i = spec_find_2nl(s);
    if i < 0 || i + 2 > s.len() {
        seq![s]
    } else {
        seq![s.take(i)] + spec_split_2nl(s.skip(i + 2))
    }
}

/// A comment line: its first character after whitespace is a hash.
pub open spec fn spec_is_comment_line(l: Seq<char>) -> bool {
    spec_trim(l).len() > 0 && spec_trim(l)[0] == '#'
}

/// A block with its ends trimmed and its comment lines dropped.
pub open spec fn spec_strip_comments(s: Seq<char>) -> Seq<char> {
    spec_join_nl(spec_lines(spec_trim(s)).filter(|l: Seq<char>| !spec_is_comment_line(l)))
}

/// The blocks of a script: the pieces between blank lines, each with its
/// comments stripped, the blank ones dropped.
pub open spec fn spec_script_blocks(s: Seq<char>) -> Seq<Seq<char>> {
    spec_split_2nl(s).map_values(|p: Seq<char>| spec_strip_comments(p)).filter(
        |t: Seq<char>| spec_trim(t).len() != 0,
    )
}

fn strip_comments_chars(v: &Vec<char>) -> (r: Vec<char>)
    ensures
        r@ == spec_strip_comments(v@),
{
    let trimmed = trim_chars(v);
    let ls = lines_of(&trimmed);
    let ghost lv = spec_lines(spec_trim(v@));
    let ghost pred = |l: Seq<char>| !spec_is_comment_line(l);
    let mut kept: Vec<Vec<char>> = Vec::new();
    let mut i: usize = 0;
    proof {
        reveal(Seq::filter);
        assert(lv.take(0) =~= Seq::<Seq<char>>::empty());
        assert(kept@.map_values(|p: Vec<char>| p@) =~= lv.take(0).filter(pred));
    }
    while i < ls.len()
        invariant
            i <= ls@.len(),
            ls@.map_values(|p: Vec<char>| p@) == lv,
            lv == spec_lines(spec_trim(v@)),
            pred == (|l: Seq<char>| !spec_is_comment_line(l)),
            kept@.map_values(|p: Vec<char>| p@) == lv.take(i as int).filter(pred),
        decreases ls@.len() - i,
    {
        proof {
            assert(ls@.map_values(|p: Vec<char>| p@)[i as int] == ls@[i as int]@);
            reveal(Seq::filter);
            assert(lv.take(i + 1).drop_last() =~= lv.take(i as int));
            assert(lv.take(i + 1).last() == lv[i as int]);
        }
        let t = trim_chars(&ls[i]);
        if !(t.len() > 0 && t[0] == '#') {
            let line = sub_chars(&ls[i], 0, ls[i].len());
            proof {
                assert(line@ =~= lv[i as int]);
            }
            kept.push(line);
            proof {
                assert(kept@.map_values(|p: Vec<char>| p@) =~= kept@.map_values(
                    |p: Vec<char>| p@,
                ).drop_last().push(lv[i as int]));
            }
        }
        i = i + 1;
    }
    proof {
        assert(lv.take(lv.len() as int) =~= lv);
        assert(kept@.map_values(|p: Vec<char>| p@).skip(0) =~= lv.filter(pred));
    }
    join_nl_from(&kept, 0)
}

/// Strips a block: trims it, drops its comment lines, joins the rest.
pub fn strip_comments(from: &str) -> (r: String)
    ensures
        r@ == spec_strip_comments(from@),
{
    let cs = chars_of(from);
    let stripped = strip_comments_chars(&cs);
    string_from_chars(&stripped)
}

/// Cuts a script into blocks at blank lines, strips each block's comments,
/// and drops the blocks with nothing left.
pub fn split(from: &str) -> (r: Vec<String>)
    ensures
        r@.map_values(|s: String| s@) == spec_script_blocks(from@),
{
    let cs = chars_of(from);
    let n = cs.len();
    let ghost strip = |p: Seq<char>| spec_strip_comments(p);
    let ghost keep = |t: Seq<char>| spec_trim(t).len() != 0;
    let mut out: Vec<String> = Vec::new();
    let mut pos: usize = 0;
    proof {
        reveal(Seq::filter);
        assert(cs@.skip(0) =~= cs@);
        assert(out@.map_values(|s: String| s@) =~= Seq::<Seq<char>>::empty());
        assert(spec_script_blocks(from@) =~= Seq::<Seq<char>>::empty() + spec_split_2nl(
            cs@.skip(0),
        ).map_values(strip).filter(keep));
    }
    loop
        invariant
            pos <= n == cs@.len(),
            cs@ == from@,
            strip == (|p: Seq<char>| spec_strip_comments(p)),
            keep == (|t: Seq<char>| spec_trim(t).len() != 0),
            spec_script_blocks(from@) == out@.map_values(|s: String| s@) + spec_split_2nl(
                cs@.skip(pos as int),
            ).map_values(strip).filter(keep),
        decreases n - pos,
    {
        let ghost suffix = cs@.skip(pos as int);
        let mut j: usize = pos;
        while j < n && j + 1 < n && !(cs[j] == '\n' && cs[j + 1] == '\n')
            invariant
                pos <= j <= n == cs@.len(),
                forall|k: int| pos <= k < j ==> !spec_sep_at(cs@, k),
            decreases n - j,
        {
            proof {
                assert(!spec_sep_at(cs@, j as int));
            }
            j = j + 1;
        }
        proof {
            assert(forall|k: int| 0 <= k < suffix.len() ==> #[trigger] suffix[k] == cs@[k + pos]);
        }
        let found = j < n && j + 1 < n;
        proof {
            if found {
                assert(spec_sep_at(cs@, j as int));
                assert(spec_sep_at(suffix, j - pos));
                assert forall|k: int| 0 <= k < j - pos implies !spec_sep_at(suffix, k) by {
                    assert(suffix[k] == cs@[k + pos]);
                    assert(suffix[k + 1] == cs@[k + pos + 1]);
                    assert(!spec_sep_at(cs@, k + pos));
                }
                lemma_find_2nl_found(suffix, j - pos);
            } else {
                assert forall|k: int| 0 <= k && k + 2 <= suffix.len() implies !spec_sep_at(
                    suffix,
                    k,
                ) by {
                    assert(suffix[k] == cs@[k + pos]);
                    assert(suffix[k + 1] == cs@[k + pos + 1]);
                    assert(!spec_sep_at(cs@, k + pos));
                }
                lemma_find_2nl_absent(suffix);
            }
        }
        let piece = if found {
            sub_chars(&cs, pos, j)
        } else {
            sub_chars(&cs, pos, n)
        };
        proof {
            if found {
                assert(piece@ =~= suffix.take(j - pos));
                assert(spec_split_2nl(suffix) == seq![suffix.take(j - pos)] + spec_split_2nl(
                    suffix.skip(j - pos + 2),
                ));
            } else {
                assert(piece@ =~= suffix);
                assert(spec_split_2nl(suffix) =~= seq![suffix]);
            }
        }
        let stripped = strip_comments_chars(&piece);
        let keep_it = {
            let t = trim_chars(&stripped);
            t.len() != 0
        };
        proof {
            reveal(Seq::filter);
            let single = seq![piece@];
            assert(single.map_values(strip) =~= seq![spec_strip_comments(piece@)]);
            assert(seq![spec_strip_comments(piece@)].drop_last() =~= Seq::<Seq<char>>::empty());
            assert(Seq::<Seq<char>>::empty().filter(keep) =~= Seq::<Seq<char>>::empty());
        }
        if keep_it {
            out.push(string_from_chars(&stripped));
            proof {
                assert(seq![spec_strip_comments(piece@)].filter(keep) =~= seq![
                    spec_strip_comments(piece@),
                ]);
                assert(out@.map_values(|s: String| s@) =~= out@.map_values(
                    |s: String| s@,
                ).drop_last() + seq![spec_strip_comments(piece@)]);
            }
        } else {
            proof {
                assert(seq![spec_strip_comments(piece@)].filter(keep) =~= Seq::<Seq<char>>::empty());
            }
        }
        if !found {
            proof {
                assert(spec_split_2nl(suffix).map_values(strip) =~= seq![
                    spec_strip_comments(piece@),
                ]);
                assert(spec_script_blocks(from@) =~= out@.map_values(|s: String| s@));
            }
            return out;
        }
        proof {
            assert(suffix.skip(j - pos + 2) =~= cs@.skip(j + 2));
            assert((seq![suffix.take(j - pos)] + spec_split_2nl(cs@.skip(j + 2))).map_values(strip)
                =~= seq![spec_strip_comments(piece@)] + spec_split_2nl(cs@.skip(j + 2)).map_values(
                strip,
            ));
            assert((seq![spec_strip_comments(piece@)] + spec_split_2nl(cs@.skip(j + 2)).map_values(
                strip,
            )).filter(keep) =~= seq![spec_strip_comments(piece@)].filter(keep) + spec_split_2nl(
                cs@.skip(j + 2),
            ).map_values(strip).filter(keep));
        }
        pos = j + 2;
    }
}

/// A word of a simple command, as far as token extraction reads it.
#[derive(Clone, Debug, PartialEq, Eq)]
pub enum ShellWord {
    /// A single-quoted word: taken literally.
    SingleQuoted(String),
    /// A double-quoted word: not supported.
    DoubleQuoted,
    /// A bare literal word.
    Literal(String),
    /// Any other simple word (a parameter, a glob, a tilde...).
    OtherSimple,
    /// A concatenation of several word parts.
    Complex,
}

/// One item of a simple command.
#[derive(Clone, Debug, PartialEq, Eq)]
pub enum CommandItem {
    /// A redirect stood among the words.
    Redirect,
    /// A word.
    Word(ShellWord),
}

/// The shape of one parsed block, as the outside shell parser reports it.
#[derive(Clone, Debug, PartialEq, Eq)]
pub enum BlockShape {
    /// The parser found no command in the block.
    NoCommand,
    /// The block holds more than one command.
    MultipleCommands,
    /// The command is a background job.
    Job,
    /// The command list carries more than its first command.
    TrailingList,
    /// The command is a pipeline.
    Pipe,
    /// The command is not a simple command (a loop, a function...).
    NotSimple,
    /// The command carries redirects or environment assignments up front.
    RedirectsOrEnv,
    /// A single simple command with these items.
    Simple { items: Vec<CommandItem> },
}

/// Why a block was rejected.
#[derive(Copy, Clone, Debug, PartialEq, Eq, Structural)]
pub enum ShError {
    NoCommand,
    MultipleCommands,
    JobsUnsupported,
    RestUnsupported,
    PipesUnsupported,
    CommandTypeUnsupported,
    RedirectsOrEnvUnsupported,
    RedirectUnsupported,
    ComplexWordUnsupported,
    DoubleQuotesUnsupported,
    SimpleWordUnsupported,
}

/// Whether one command item yields a token, and if not, why.
pub open spec fn spec_item_outcome(it: CommandItem) -> Result<(), ShError> {
    match it {
        CommandItem::Redirect => Err(ShError::RedirectUnsupported),
        CommandItem::Word(w) => match w {
            ShellWord::SingleQuoted(_) => Ok(()),
            ShellWord::DoubleQuoted => Err(ShError::DoubleQuotesUnsupported),
            ShellWord::Literal(_) => Ok(()),
            ShellWord::OtherSimple => Err(ShError::SimpleWordUnsupported),
            ShellWord::Complex => Err(ShError::ComplexWordUnsupported),
        },
    }
}

/// The token an accepted item yields.
pub open spec fn spec_item_token(it: CommandItem, t: Seq<char>) -> bool {
    match it {
        CommandItem::Word(ShellWord::SingleQuoted(s)) => t == s@,
        CommandItem::Word(ShellWord::Literal(s)) => t == s@,
        _ => false,
    }
}

/// The error a rejected block shape maps to.
pub open spec fn spec_shape_error(shape: BlockShape) -> Result<(), ShError> {
    match shape {
        BlockShape::NoCommand => Err(ShError::NoCommand),
        BlockShape::MultipleCommands => Err(ShError::MultipleCommands),
        BlockShape::Job => Err(ShError::JobsUnsupported),
        BlockShape::TrailingList => Err(ShError::RestUnsupported),
        BlockShape::Pipe => Err(ShError::PipesUnsupported),
        BlockShape::NotSimple => Err(ShError::CommandTypeUnsupported),
        BlockShape::RedirectsOrEnv => Err(ShError::RedirectsOrEnvUnsupported),
        BlockShape::Simple { .. } => Ok(()),
    }
}

/// The literal text of one word; quoting decides whether it is taken.
pub fn literal_word(word: &ShellWord) -> (r: Result<String, ShError>)
    ensures
        match word {
            ShellWord::SingleQuoted(s) => r matches Ok(t) && t@ == s@,
            ShellWord::Literal(s) => r matches Ok(t) && t@ == s@,
            ShellWord::DoubleQuoted => r == Err::<String, ShError>(ShError::DoubleQuotesUnsupported),
            ShellWord::OtherSimple => r == Err::<String, ShError>(ShError::SimpleWordUnsupported),
            ShellWord::Complex => r == Err::<String, ShError>(ShError::ComplexWordUnsupported),
        },
{
    match word {
        ShellWord::SingleQuoted(s) => Ok(s.clone()),
        ShellWord::Literal(s) => Ok(s.clone()),
        ShellWord::DoubleQuoted => Err(ShError::DoubleQuotesUnsupported),
        ShellWord::OtherSimple => Err(ShError::SimpleWordUnsupported),
        ShellWord::Complex => Err(ShError::ComplexWordUnsupported),
    }
}

/// Extracts the tokens of one block: only a single simple command of
/// literal or single-quoted words is accepted, and the first offending
/// item decides the error.
pub fn tokens_of(shape: &BlockShape) -> (r: Result<Vec<String>, ShError>)
    ensures
        spec_shape_error(*shape) matches Err(e) ==> r == Err::<Vec<String>, ShError>(e),
        shape matches BlockShape::Simple { items } ==> {
            &&& (forall|i: int|
                0 <= i < items@.len() ==> spec_item_outcome(#[trigger] items@[i]) is Ok) ==> r is Ok
            &&& (r matches Ok(ts) ==> ts@.len() == items@.len() && (forall|i: int|
                0 <= i < items@.len() ==> spec_item_outcome(#[trigger] items@[i]) is Ok
                    && spec_item_token(items@[i], ts@[i]@)))
            &&& (r matches Err(e) ==> exists|i: int|
                0 <= i < items@.len() && spec_item_outcome(#[trigger] items@[i]) == Err::<
                    (),
                    ShError,
                >(e) && (forall|j: int| 0 <= j < i ==> spec_item_outcome(#[trigger] items@[j]) is Ok))
        },
{
    match shape {
        BlockShape::NoCommand => Err(ShError::NoCommand),
        BlockShape::MultipleCommands => Err(ShError::MultipleCommands),
        BlockShape::Job => Err(ShError::JobsUnsupported),
        BlockShape::TrailingList => Err(ShError::RestUnsupported),
        BlockShape::Pipe => Err(ShError::PipesUnsupported),
        BlockShape::NotSimple => Err(ShError::CommandTypeUnsupported),
        BlockShape::RedirectsOrEnv => Err(ShError::RedirectsOrEnvUnsupported),
        BlockShape::Simple { items } => {
            let mut ts: Vec<String> = Vec::new();
            let mut i: usize = 0;
            while i < items.len()
                invariant
                    shape matches BlockShape::Simple { items: si } && si@ == items@,
                    i <= items@.len(),
                    ts@.len() == i,
                    forall|k: int| 0 <= k < i ==> spec_item_outcome(#[trigger] items@[k]) is Ok,
                    forall|k: int| 0 <= k < i ==> spec_item_token(items@[k], #[trigger] ts@[k]@),
                decreases items@.len() - i,
            {
                match &items[i] {
                    CommandItem::Redirect => {
                        proof {
                            assert(spec_item_outcome(items@[i as int]) == Err::<(), ShError>(
                                ShError::RedirectUnsupported,
                            ));
                        }
                        return Err(ShError::RedirectUnsupported);
                    },
                    CommandItem::Word(w) => match literal_word(w) {
                        Ok(t) => {
                            proof {
                                assert(spec_item_outcome(items@[i as int]) is Ok);
                                assert(spec_item_token(items@[i as int], t@));
                            }
                            ts.push(t);
                        },
                        Err(e) => {
                            proof {
                                assert(spec_item_outcome(items@[i as int]) == Err::<(), ShError>(
                                    e,
                                ));
                            }
                            return Err(e);
                        },
                    },
                }
                i = i + 1;
            }
            Ok(ts)
        },
    }
}

} // verus!
