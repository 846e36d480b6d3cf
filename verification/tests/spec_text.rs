use fappa::git::fs_safe_url;
use fappa::spec_sh::{
    split, strip_comments, tokens_of, BlockShape, CommandItem, ShError, ShellWord,
};
use fappa::specs::{
    blocks, package_from_text, parse_command, parse_commands, split_space, Command, CommandError,
    Package, PackageSerialisation,
};

#[test]
fn splitting() {
    assert_eq!(
        vec!["foo \\\n  bar", "baz \\\n  quux"],
        split(
            r"
# first, let's do something
foo \
  bar

# then, something else?
# maybe
baz \
  quux
"
        )
    )
}

#[test]
fn splitting_edges() {
    assert_eq!(split(""), Vec::<String>::new());
    assert_eq!(split("\n\n\n\n"), Vec::<String>::new());
    // a lone extra newline stays inside the block and is trimmed away
    assert_eq!(split("a\n\n\nb"), vec!["a", "b"]);
}

#[test]
fn comment_stripping() {
    assert_eq!(strip_comments("  a\n# comment\nb  "), "a\nb");
    assert_eq!(strip_comments("# only a comment"), "");
    assert_eq!(strip_comments(""), "");
    assert_eq!(strip_comments("   \t "), "");
}

#[test]
fn simple_command_tokens() {
    let shape = BlockShape::Simple {
        items: vec![
            CommandItem::Word(ShellWord::Literal("foo".to_string())),
            CommandItem::Word(ShellWord::Literal("bar".to_string())),
            CommandItem::Word(ShellWord::SingleQuoted("baz quux".to_string())),
            CommandItem::Word(ShellWord::SingleQuoted("baz potato".to_string())),
        ],
    };
    assert_eq!(
        tokens_of(&shape).unwrap(),
        vec!["foo", "bar", "baz quux", "baz potato"]
    );
}

#[test]
fn unsupported_shell_shapes() {
    assert_eq!(tokens_of(&BlockShape::NoCommand), Err(ShError::NoCommand));
    assert_eq!(tokens_of(&BlockShape::Pipe), Err(ShError::PipesUnsupported));
    assert_eq!(tokens_of(&BlockShape::Job), Err(ShError::JobsUnsupported));
    let with_quotes = BlockShape::Simple {
        items: vec![
            CommandItem::Word(ShellWord::Literal("echo".to_string())),
            CommandItem::Word(ShellWord::DoubleQuoted),
        ],
    };
    assert_eq!(tokens_of(&with_quotes), Err(ShError::DoubleQuotesUnsupported));
    let with_redirect = BlockShape::Simple { items: vec![CommandItem::Redirect] };
    assert_eq!(tokens_of(&with_redirect), Err(ShError::RedirectUnsupported));
    let with_param = BlockShape::Simple {
        items: vec![CommandItem::Word(ShellWord::OtherSimple)],
    };
    assert_eq!(tokens_of(&with_param), Err(ShError::SimpleWordUnsupported));
    let with_concat = BlockShape::Simple {
        items: vec![CommandItem::Word(ShellWord::Complex)],
    };
    assert_eq!(tokens_of(&with_concat), Err(ShError::ComplexWordUnsupported));
    assert_eq!(
        tokens_of(&BlockShape::MultipleCommands),
        Err(ShError::MultipleCommands)
    );
    assert_eq!(tokens_of(&BlockShape::TrailingList), Err(ShError::RestUnsupported));
    assert_eq!(tokens_of(&BlockShape::NotSimple), Err(ShError::CommandTypeUnsupported));
    assert_eq!(
        tokens_of(&BlockShape::RedirectsOrEnv),
        Err(ShError::RedirectsOrEnvUnsupported)
    );
}

#[test]
fn command_parsing() {
    assert_eq!(
        parse_command("CLONE repo branch sha dest").unwrap(),
        Command::Clone {
            repo: "repo".to_string(),
            branch: "branch".to_string(),
            sha: "sha".to_string(),
            dest: "dest".to_string(),
        }
    );
    assert_eq!(parse_command("AUTORECONF").unwrap(), Command::Autoreconf);
    assert_eq!(parse_command("CMAKE").unwrap(), Command::CMake);
    assert_eq!(
        parse_command("AUTORECONF now").unwrap_err(),
        CommandError::UnexpectedArguments
    );
    assert_eq!(
        parse_command("CLONE repo branch").unwrap_err(),
        CommandError::MissingCloneArgument
    );
    assert_eq!(parse_command("FROBNICATE").unwrap_err(), CommandError::UnrecognisedOp);
    assert_eq!(
        parse_command("CLONE a\tb c d").unwrap_err(),
        CommandError::ControlCharacters
    );
}

#[test]
fn command_list_parsing() {
    let cmds = parse_commands(vec![
        "AUTORECONF".to_string(),
        "CLONE r b s d".to_string(),
    ])
    .unwrap();
    assert_eq!(cmds.len(), 2);
    assert_eq!(cmds[0], Command::Autoreconf);
    assert_eq!(
        parse_commands(vec!["AUTORECONF".to_string(), "NOPE".to_string()]).unwrap_err(),
        CommandError::UnrecognisedOp
    );
}

#[test]
fn splitting_on_first_space() {
    assert_eq!(split_space("CLONE a b"), ("CLONE".to_string(), "a b".to_string()));
    // a leading space splits at position zero: the op is empty
    assert_eq!(split_space("  CMAKE  "), ("".to_string(), "CMAKE  ".to_string()));
    assert_eq!(split_space("ONEWORD"), ("ONEWORD".to_string(), "".to_string()));
}

#[test]
fn block_grouping() {
    assert_eq!(
        blocks("# header\nAUTORECONF\n\nCLONE a b c d\nCMAKE\n"),
        vec!["AUTORECONF", "CLONE a b c d\nCMAKE"]
    );
    assert_eq!(blocks(""), Vec::<String>::new());
    assert_eq!(blocks("# nothing\n\n# at all\n"), Vec::<String>::new());
}

#[test]
fn package_loading() {
    let p = package_from_text("# a package\nAUTORECONF\n\nCMAKE\n").unwrap();
    assert_eq!(p.ser.commands, vec![Command::Autoreconf, Command::CMake]);
    assert_eq!(
        package_from_text("WAT").unwrap_err(),
        CommandError::UnrecognisedOp
    );
}

#[test]
fn package_accessors() {
    let ser = PackageSerialisation {
        commands: vec![Command::Autoreconf],
    };
    let p = Package::from_str(ser).unwrap();
    assert_eq!(p.source(), vec![Command::Autoreconf]);
    assert_eq!(p.exclude_files(), Vec::<String>::new());
}

#[test]
fn fs_safe() {
    assert_eq!(
        "git___sigrok_org_libsigrok",
        fs_safe_url("git://sigrok.org/libsigrok")
    )
}

#[test]
fn fs_safe_keeps_alphanumerics_only() {
    assert_eq!(fs_safe_url("a b-c_9"), "a_b_c_9");
    assert_eq!(fs_safe_url(""), "");
}
