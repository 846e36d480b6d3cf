//! Package build specifications.
//!
//! A package is described by a text of blocks separated by blank lines;
//! comment lines start with a hash.  Each block is one build command: an
//! operation name, then its arguments after the first space.

use vstd::prelude::*;

use crate::text::{
    chars_eq_str, chars_of, join_nl_from, lines_of, spec_find_char, spec_join_nl, spec_lines,
    spec_trim, spec_trim_end, spec_trim_start, spec_split_char, split_char, string_from_chars,
    sub_chars, trim_chars, trim_end_chars, trim_start_chars,
};

verus! {

/// One build command of a package specification.
#[derive(Clone, Debug, Eq, PartialEq)]
pub enum Command {
    /// Fetch a git repository at a given commit into a directory.
    Clone { repo: String, branch: String, sha: String, dest: String },
    /// Run the autotools bootstrap.
    Autoreconf,
    /// Run a cmake build.
    CMake,
}

/// The serialised form of a package: its commands, in order.
#[derive(Clone, Debug, Eq, PartialEq)]
pub struct PackageSerialisation {
    pub commands: Vec<Command>,
}

/// A package specification.
#[derive(Clone, Debug, Eq, PartialEq)]
pub struct Package {
    pub ser: PackageSerialisation,
}

/// Why a command text was rejected.
#[derive(Copy, Clone, Debug, PartialEq, Eq, Structural)]
pub enum CommandError {
    /// The text holds a control character.
    ControlCharacters,
    /// A CLONE needs a repository, a branch, a commit and a destination.
    MissingCloneArgument,
    /// The operation takes no arguments but some were given.
    UnexpectedArguments,
    /// The operation name is not known.
    UnrecognisedOp,
}

/// A control character: the C0 range, delete, and the C1 range.
pub open spec fn spec_is_control(c: char) -> bool {
    (c as u32) < 0x20 || (0x7f <= (c as u32) && (c as u32) <= 0x9f)
}

pub open spec fn spec_has_control(s: Seq<char>) -> bool {
    exists|i: int| 0 <= i < s.len() && spec_is_control(#[trigger] s[i])
}

/// The operation name and the argument text of a command: the parts before
/// and after the first space, the name trimmed, the arguments with their
/// leading whitespace removed.
pub open spec fn spec_split_space(s: Seq<char>) -> (Seq<char>, Seq<char>) {
    let i = spec_find_char(s, ' ');
    if i < 0 {
        (spec_trim(s), Seq::<char>::empty())
    } else {
        (spec_trim(s.take(i)), spec_trim_start(s.skip(i)))
    }
}

/// Whether a command text parses, and if not, why.
pub open spec fn spec_parse_outcome(s: Seq<char>) -> Result<(), CommandError> {
    if spec_has_control(s) {
        Err(CommandError::ControlCharacters)
    } else {
        let op = spec_split_space(s).0;
        let args = spec_split_space(s).1;
        if op == "CLONE"@ {
            if spec_split_char(args, ' ').len() >= 4 {
                Ok(())
            } else {
                Err(CommandError::MissingCloneArgument)
            }
        } else if op == "AUTORECONF"@ {
            if args.len() == 0 {
                Ok(())
            } else {
                Err(CommandError::UnexpectedArguments)
            }
        } else if op == "CMAKE"@ {
            if args.len() == 0 {
                Ok(())
            } else {
                Err(CommandError::UnexpectedArguments)
            }
        } else {
            Err(CommandError::UnrecognisedOp)
        }
    }
}

/// The command a text denotes, when it parses: a CLONE takes its first four
/// space-separated arguments, the other operations take none.
pub open spec fn spec_parses_to(s: Seq<char>, c: Command) -> bool {
    let op = spec_split_space(s).0;
    let args = spec_split_space(s).1;
    let ws = spec_split_char(args, ' ');
    if op == "CLONE"@ {
        c matches Command::Clone { repo, branch, sha, dest } && repo@ == ws[0] && branch@ == ws[1]
            && sha@ == ws[2] && dest@ == ws[3]
    } else if op == "AUTORECONF"@ {
        c is Autoreconf
    } else if op == "CMAKE"@ {
        c is CMake
    } else {
        false
    }
}

fn is_control(c: char) -> (r: bool)
    ensures
        r == spec_is_control(c),
{
    (c as u32) < 0x20 || (0x7f <= (c as u32) && (c as u32) <= 0x9f)
}

/// Splits a command into its operation name and its argument text.
pub fn split_space(s: &str) -> (r: (String, String))
    ensures
        r.0@ == spec_split_space(s@).0,
        r.1@ == spec_split_space(s@).1,
{
    let cs = chars_of(s);
    let (op, args) = split_space_chars(&cs);
    (string_from_chars(&op), string_from_chars(&args))
}

fn split_space_chars(cs: &Vec<char>) -> (r: (Vec<char>, Vec<char>))
    ensures
        r.0@ == spec_split_space(cs@).0,
        r.1@ == spec_split_space(cs@).1,
{
    let n = cs.len();
    let mut i: usize = 0;
    while i < n && cs[i] != ' '
        invariant
            i <= n == cs@.len(),
            forall|k: int| 0 <= k < i ==> cs@[k] != ' ',
        decreases n - i,
    {
        i = i + 1;
    }
    proof {
        crate::text::lemma_find_char_is(cs@, ' ', i as int);
    }
    if i == n {
        let trimmed = trim_chars(cs);
        (trimmed, Vec::new())
    } else {
        let left = sub_chars(cs, 0, i);
        let right = sub_chars(cs, i, n);
        proof {
            assert(left@ =~= cs@.take(i as int));
            assert(right@ =~= cs@.skip(i as int));
        }
        (trim_chars(&left), trim_start_chars(&right))
    }
}

/// Parses one command text: the operation decides the variant, exactly as
/// `spec_parse_outcome` and `spec_parses_to` relate.
pub fn parse_command(cmd: &str) -> (r: Result<Command, CommandError>)
    ensures
        spec_parse_outcome(cmd@) matches Err(e) ==> (r matches Err(e2) && e2 == e),
        spec_parse_outcome(cmd@) is Ok ==> (r matches Ok(c) && spec_parses_to(cmd@, c)),
{
    let cs = chars_of(cmd);
    let mut i: usize = 0;
    while i < cs.len()
        invariant
            i <= cs@.len(),
            cs@ == cmd@,
            forall|k: int| 0 <= k < i ==> !spec_is_control(#[trigger] cs@[k]),
        decreases cs@.len() - i,
    {
        if is_control(cs[i]) {
            proof {
                assert(spec_has_control(cmd@));
            }
            return Err(CommandError::ControlCharacters);
        }
        i = i + 1;
    }
    proof {
        assert(!spec_has_control(cmd@));
    }
    let (op, args) = split_space_chars(&cs);
    if chars_eq_str(&op, "CLONE") {
        let ws = split_char(&args, ' ');
        proof {
            assert(ws@.map_values(|p: Vec<char>| p@).len() == ws@.len());
        }
        if ws.len() < 4 {
            return Err(CommandError::MissingCloneArgument);
        }
        proof {
            assert(ws@.map_values(|p: Vec<char>| p@)[0] == ws@[0]@);
            assert(ws@.map_values(|p: Vec<char>| p@)[1] == ws@[1]@);
            assert(ws@.map_values(|p: Vec<char>| p@)[2] == ws@[2]@);
            assert(ws@.map_values(|p: Vec<char>| p@)[3] == ws@[3]@);
        }
        Ok(
            Command::Clone {
                repo: string_from_chars(&ws[0]),
                branch: string_from_chars(&ws[1]),
                sha: string_from_chars(&ws[2]),
                dest: string_from_chars(&ws[3]),
            },
        )
    } else if chars_eq_str(&op, "AUTORECONF") {
        if args.len() == 0 {
            Ok(Command::Autoreconf)
        } else {
            Err(CommandError::UnexpectedArguments)
        }
    } else if chars_eq_str(&op, "CMAKE") {
        if args.len() == 0 {
            Ok(Command::CMake)
        } else {
            Err(CommandError::UnexpectedArguments)
        }
    } else {
        Err(CommandError::UnrecognisedOp)
    }
}

/// Parses a list of command texts; the first rejected text decides the
/// error.
pub fn parse_commands(v: Vec<String>) -> (r: Result<Vec<Command>, CommandError>)
    ensures
        (forall|i: int| 0 <= i < v@.len() ==> spec_parse_outcome(#[trigger] v@[i]@) is Ok) ==> r is Ok,
        r matches Ok(cs) ==> cs@.len() == v@.len() && (forall|i: int|
            0 <= i < v@.len() ==> spec_parse_outcome(#[trigger] v@[i]@) is Ok && spec_parses_to(
                v@[i]@,
                cs@[i],
            )),
        r matches Err(e) ==> exists|i: int|
            0 <= i < v@.len() && spec_parse_outcome(#[trigger] v@[i]@) == Err::<(), CommandError>(e)
                && (forall|j: int| 0 <= j < i ==> spec_parse_outcome(#[trigger] v@[j]@) is Ok),
{
    let mut cs: Vec<Command> = Vec::new();
    let mut i: usize = 0;
    while i < v.len()
        invariant
            i <= v@.len(),
            cs@.len() == i,
            forall|k: int| 0 <= k < i ==> spec_parse_outcome(#[trigger] v@[k]@) is Ok,
            forall|k: int| 0 <= k < i ==> spec_parses_to(#[trigger] v@[k]@, cs@[k]),
        decreases v@.len() - i,
    {
        match parse_command(v[i].as_str()) {
            Ok(c) => {
                cs.push(c);
            },
            Err(e) => {
                return Err(e);
            },
        }
        i = i + 1;
    }
    Ok(cs)
}

/// Two commands carry the same operation and the same argument texts.
pub open spec fn spec_same_command(a: Command, b: Command) -> bool {
    match (a, b) {
        (
            Command::Clone { repo: r1, branch: b1, sha: s1, dest: d1 },
            Command::Clone { repo: r2, branch: b2, sha: s2, dest: d2 },
        ) => r1@ == r2@ && b1@ == b2@ && s1@ == s2@ && d1@ == d2@,
        (Command::Autoreconf, Command::Autoreconf) => true,
        (Command::CMake, Command::CMake) => true,
        _ => false,
    }
}

fn clone_command(c: &Command) -> (r: Command)
    ensures
        spec_same_command(*c, r),
{
    match c {
        Command::Clone { repo, branch, sha, dest } => Command::Clone {
            repo: repo.clone(),
            branch: branch.clone(),
            sha: sha.clone(),
            dest: dest.clone(),
        },
        Command::Autoreconf => Command::Autoreconf,
        Command::CMake => Command::CMake,
    }
}

impl Package {
    /// Wraps a serialisation as a package.
    pub fn from_str(ser: PackageSerialisation) -> (r: Result<Package, CommandError>)
        ensures
            r matches Ok(p) && p.ser == ser,
    {
        Ok(Package { ser })
    }

    /// The files a package excludes from its sources: none are excluded.
    pub fn exclude_files(&self) -> (r: Vec<String>)
        ensures
            r@.len() == 0,
    {
        Vec::new()
    }

    /// The commands that fetch and prepare the package's sources.
    pub fn source(&self) -> (r: Vec<Command>)
        ensures
            r@.len() == self.ser.commands@.len(),
            forall|i: int|
                0 <= i < r@.len() ==> spec_same_command(
                    #[trigger] self.ser.commands@[i],
                    r@[i],
                ),
    {
        let mut r: Vec<Command> = Vec::new();
        let mut i: usize = 0;
        while i < self.ser.commands.len()
            invariant
                i <= self.ser.commands@.len(),
                r@.len() == i,
                forall|k: int|
                    0 <= k < i ==> spec_same_command(#[trigger] self.ser.commands@[k], r@[k]),
            decreases self.ser.commands@.len() - i,
        {
            r.push(clone_command(&self.ser.commands[i]));
            i = i + 1;
        }
        r
    }
}

/// The position of the first blank line, or -1.
pub open spec fn spec_find_blank(ls: Seq<Seq<char>>) -> int
    decreases ls.len(),
{
    if ls.len() == 0 {
        -1
    } else if ls[0].len() == 0 {
        0
    } else {
        let r = spec_find_blank(ls.drop_first());
        if r < 0 {
            -1
        } else {
            r + 1
        }
    }
}

proof fn lemma_find_blank_is(ls: Seq<Seq<char>>, i: int)
    requires
        0 <= i <= ls.len(),
        forall|k: int| 0 <= k < i ==> #[trigger] ls[k].len() != 0,
        i == ls.len() || ls[i].len() == 0,
    ensures
        spec_find_blank(ls) == if i == ls.len() {
            -1int
        } else {
            i
        },
    decreases ls.len(),
{
    if ls.len() == 0 {
    } else if ls[0].len() == 0 {
        assert(i == 0);
    } else {
        assert(i >= 1);
        lemma_find_blank_is(ls.drop_first(), i - 1);
    }
}

/// The runs of lines between blank lines.
pub open spec fn spec_line_groups(ls: Seq<Seq<char>>) -> Seq<Seq<Seq<char>>>
    decreases ls.len(),
{
    let i = spec_find_blank(ls);
    if i < 0 || i >= ls.len() {
        seq![ls]
    } else {
        seq![ls.take(i)] + spec_line_groups(ls.skip(i + 1))
    }
}

/// The lines that survive comment stripping: every line with its trailing
/// whitespace removed, minus those that start with a hash.
pub open spec fn spec_kept_lines(text: Seq<char>) -> Seq<Seq<char>> {
    spec_lines(text).map_values(|l: Seq<char>| spec_trim_end(l)).filter(
        |l: Seq<char>| !(l.len() > 0 && l[0] == '#'),
    )
}

/// The blocks of a specification text: the non-empty runs of kept lines
/// between blank lines, each joined back with newlines.
pub open spec fn spec_blocks(text: Seq<char>) -> Seq<Seq<char>> {
    spec_line_groups(spec_kept_lines(text)).filter(|g: Seq<Seq<char>>| g.len() > 0).map_values(
        |g: Seq<Seq<char>>| spec_join_nl(g),
    )
}

proof fn lemma_filter_singleton(g: Seq<Seq<char>>, pred: spec_fn(Seq<Seq<char>>) -> bool)
    ensures
        seq![g].filter(pred) == if pred(g) {
            seq![g]
        } else {
            Seq::<Seq<Seq<char>>>::empty()
        },
{
    reveal(Seq::filter);
    let s = seq![g];
    assert(s.drop_last() =~= Seq::<Seq<Seq<char>>>::empty());
    assert(Seq::<Seq<Seq<char>>>::empty().filter(pred) =~= Seq::<Seq<Seq<char>>>::empty());
    assert(s.last() == g);
    if pred(g) {
        assert(s.filter(pred) =~= seq![g]);
    }
}

/// Cuts a specification text into its blocks, exactly as `spec_blocks`
/// relates: comments dropped, blank lines separating, each block the
/// newline-joined kept lines.
pub fn blocks(text: &str) -> (r: Vec<String>)
    ensures
        r@.map_values(|s: String| s@) == spec_blocks(text@),
{
    broadcast use vstd::seq_lib::group_seq_properties;

    let cs = chars_of(text);
    let raw_lines = lines_of(&cs);
    let ghost mapped = spec_lines(text@).map_values(|l: Seq<char>| spec_trim_end(l));
    let ghost pred_keep = |l: Seq<char>| !(l.len() > 0 && l[0] == '#');
    let mut kept: Vec<Vec<char>> = Vec::new();
    let mut i: usize = 0;
    proof {
        reveal(Seq::filter);
        assert(mapped.take(0) =~= Seq::<Seq<char>>::empty());
        assert(kept@.map_values(|p: Vec<char>| p@) =~= mapped.take(0).filter(pred_keep));
    }
    while i < raw_lines.len()
        invariant
            i <= raw_lines@.len(),
            raw_lines@.map_values(|p: Vec<char>| p@) == spec_lines(text@),
            mapped == spec_lines(text@).map_values(|l: Seq<char>| spec_trim_end(l)),
            mapped.len() == raw_lines@.len(),
            pred_keep == (|l: Seq<char>| !(l.len() > 0 && l[0] == '#')),
            kept@.map_values(|p: Vec<char>| p@) == mapped.take(i as int).filter(pred_keep),
        decreases raw_lines@.len() - i,
    {
        proof {
            assert(raw_lines@.map_values(|p: Vec<char>| p@)[i as int] == raw_lines@[i as int]@);
            assert(mapped[i as int] == spec_trim_end(raw_lines@[i as int]@));
        }
        let t = trim_end_chars(&raw_lines[i]);
        proof {
            reveal(Seq::filter);
            assert(mapped.take(i + 1).drop_last() =~= mapped.take(i as int));
            assert(mapped.take(i + 1).last() == t@);
        }
        if !(t.len() > 0 && t[0] == '#') {
            kept.push(t);
            proof {
                assert(kept@.map_values(|p: Vec<char>| p@) =~= kept@.map_values(
                    |p: Vec<char>| p@,
                ).drop_last().push(mapped[i as int]));
            }
        }
        i = i + 1;
    }
    proof {
        assert(mapped.take(mapped.len() as int) =~= mapped);
        assert(kept@.map_values(|p: Vec<char>| p@) == spec_kept_lines(text@));
    }
    let ghost kl = spec_kept_lines(text@);
    let ghost pred_grp = |g: Seq<Seq<char>>| g.len() > 0;
    let ghost join = |g: Seq<Seq<char>>| spec_join_nl(g);
    let mut out: Vec<String> = Vec::new();
    let n = kept.len();
    let mut pos: usize = 0;
    proof {
        assert(kl.skip(0) =~= kl);
        assert(out@.map_values(|s: String| s@) =~= Seq::<Seq<char>>::empty());
        assert(spec_blocks(text@) =~= Seq::<Seq<char>>::empty() + spec_line_groups(kl.skip(0)).filter(
            pred_grp,
        ).map_values(join));
    }
    loop
        invariant
            pos <= n == kept@.len(),
            kept@.map_values(|p: Vec<char>| p@) == kl,
            pred_grp == (|g: Seq<Seq<char>>| g.len() > 0),
            join == (|g: Seq<Seq<char>>| spec_join_nl(g)),
            spec_blocks(text@) == out@.map_values(|s: String| s@) + spec_line_groups(
                kl.skip(pos as int),
            ).filter(pred_grp).map_values(join),
        decreases n - pos,
    {
        let ghost suffix = kl.skip(pos as int);
        let mut j: usize = pos;
        while j < n && kept[j].len() > 0
            invariant
                pos <= j <= n == kept@.len(),
                kept@.map_values(|p: Vec<char>| p@) == kl,
                forall|k: int| pos <= k < j ==> #[trigger] kl[k].len() != 0,
            decreases n - j,
        {
            proof {
                assert(kl[j as int] == kept@[j as int]@);
            }
            j = j + 1;
        }
        proof {
            assert(forall|k: int| 0 <= k < j - pos ==> #[trigger] suffix[k] == kl[k + pos]);
            if j < n {
                assert(kl[j as int] == kept@[j as int]@);
                assert(suffix[j - pos].len() == 0);
            }
            lemma_find_blank_is(suffix, j - pos);
        }
        let group = sub_vecs(&kept, pos, j);
        proof {
            assert(group@.map_values(|p: Vec<char>| p@) =~= suffix.take(j - pos));
        }
        if j == n {
            // no blank line remains: the suffix is one final group
            proof {
                reveal(Seq::filter);
                assert(spec_line_groups(suffix) =~= seq![suffix]);
                assert(suffix.take(j - pos) =~= suffix);
            }
            if group.len() > 0 {
                let joined = join_nl_from(&group, 0);
                proof {
                    assert(group@.map_values(|p: Vec<char>| p@).skip(0) =~= suffix);
                }
                out.push(string_from_chars(&joined));
                proof {
                    lemma_filter_singleton(suffix, pred_grp);
                    assert(pred_grp(suffix));
                    assert(out@.map_values(|s: String| s@) =~= out@.map_values(
                        |s: String| s@,
                    ).drop_last().push(spec_join_nl(suffix)));
                    assert(seq![suffix].filter(pred_grp).map_values(join) =~= seq![
                        spec_join_nl(suffix),
                    ]);
                    assert(spec_blocks(text@) =~= out@.map_values(|s: String| s@));
                }
            } else {
                proof {
                    assert(suffix =~= Seq::<Seq<char>>::empty());
                    lemma_filter_singleton(suffix, pred_grp);
                    assert(!pred_grp(suffix));
                    assert(Seq::<Seq<Seq<char>>>::empty().map_values(join) =~= Seq::<
                        Seq<char>,
                    >::empty());
                    assert(spec_blocks(text@) =~= out@.map_values(|s: String| s@));
                }
            }
            return out;
        }
        proof {
            assert(spec_line_groups(suffix) == seq![suffix.take(j - pos)] + spec_line_groups(
                suffix.skip(j - pos + 1),
            ));
            assert(suffix.skip(j - pos + 1) =~= kl.skip(j + 1));
            assert((seq![suffix.take(j - pos)] + spec_line_groups(kl.skip(j + 1))).filter(pred_grp)
                =~= seq![suffix.take(j - pos)].filter(pred_grp) + spec_line_groups(
                kl.skip(j + 1),
            ).filter(pred_grp));
        }
        if group.len() > 0 {
            let joined = join_nl_from(&group, 0);
            proof {
                assert(group@.map_values(|p: Vec<char>| p@).skip(0) =~= suffix.take(j - pos));
            }
            out.push(string_from_chars(&joined));
            proof {
                lemma_filter_singleton(suffix.take(j - pos), pred_grp);
                assert(pred_grp(suffix.take(j - pos)));
                assert(seq![suffix.take(j - pos)].filter(pred_grp).map_values(join) =~= seq![
                    spec_join_nl(suffix.take(j - pos)),
                ]);
                assert(out@.map_values(|s: String| s@) =~= out@.map_values(
                    |s: String| s@,
                ).drop_last() + seq![spec_join_nl(suffix.take(j - pos))]);
            }
        } else {
            proof {
                assert(suffix.take(j - pos) =~= Seq::<Seq<char>>::empty());
                lemma_filter_singleton(suffix.take(j - pos), pred_grp);
                assert(!pred_grp(suffix.take(j - pos)));
                assert(Seq::<Seq<Seq<char>>>::empty().map_values(join) =~= Seq::<
                    Seq<char>,
                >::empty());
            }
        }
        pos = j + 1;
    }
}

fn sub_vecs(v: &Vec<Vec<char>>, from: usize, to: usize) -> (r: Vec<Vec<char>>)
    requires
        from <= to <= v@.len(),
    ensures
        r@.map_values(|p: Vec<char>| p@) == v@.map_values(|p: Vec<char>| p@).subrange(
            from as int,
            to as int,
        ),
{
    let mut r: Vec<Vec<char>> = Vec::new();
    let mut i: usize = from;
    while i < to
        invariant
            from <= i <= to <= v@.len(),
            r@.len() == i - from,
            forall|k: int| 0 <= k < i - from ==> #[trigger] r@[k]@ == v@[k + from]@,
        decreases to - i,
    {
        let piece = sub_chars(&v[i], 0, v[i].len());
        proof {
            assert(piece@ =~= v@[i as int]@);
        }
        r.push(piece);
        i = i + 1;
    }
    proof {
        assert forall|k: int| 0 <= k < r@.len() implies #[trigger] r@[k]@ == v@.map_values(
            |p: Vec<char>| p@,
        ).subrange(from as int, to as int)[k] by {
            assert(v@.map_values(|p: Vec<char>| p@)[k + from] == v@[k + from]@);
        }
        assert(r@.map_values(|p: Vec<char>| p@) =~= v@.map_values(|p: Vec<char>| p@).subrange(
            from as int,
            to as int,
        ));
    }
    r
}

/// Parses a whole specification text into a package: its blocks, each as
/// one command.
pub fn package_from_text(text: &str) -> (r: Result<Package, CommandError>)
    ensures
        (forall|i: int|
            0 <= i < spec_blocks(text@).len() ==> spec_parse_outcome(
                #[trigger] spec_blocks(text@)[i],
            ) is Ok) ==> r is Ok,
        r matches Ok(p) ==> p.ser.commands@.len() == spec_blocks(text@).len() && (forall|i: int|
            0 <= i < spec_blocks(text@).len() ==> spec_parse_outcome(
                #[trigger] spec_blocks(text@)[i],
            ) is Ok && spec_parses_to(spec_blocks(text@)[i], p.ser.commands@[i])),
        r matches Err(e) ==> exists|i: int|
            0 <= i < spec_blocks(text@).len() && spec_parse_outcome(#[trigger] spec_blocks(text@)[i])
                == Err::<(), CommandError>(e),
{
    let bs = blocks(text);
    proof {
        assert(bs@.len() == spec_blocks(text@).len());
        assert forall|i: int| 0 <= i < bs@.len() implies #[trigger] bs@[i]@ == spec_blocks(
            text@,
        )[i] by {
            assert(bs@.map_values(|s: String| s@)[i] == bs@[i]@);
        }
    }
    match parse_commands(bs) {
        Ok(commands) => Ok(Package { ser: PackageSerialisation { commands } }),
        Err(e) => Err(e),
    }
}

} // verus!
