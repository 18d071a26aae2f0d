//! The command line: which command the arguments ask for.
use vstd::prelude::*;

use crate::text::{same_text, views};

verus! {

/// A command of the `kuro` program.
#[derive(Debug, PartialEq, Eq)]
pub enum Commands {
    /// Create a new site in the directory.
    Init(String),
    /// Build the site in the directory.
    Build(String),
    /// Build and serve the site in the directory, rebuilding on change when `watch` is set.
    Serve { path: String, watch: bool },
    /// Create a new page, or a new blog post when `post` is set.
    New { name: String, post: bool },
}

/// What a command holds, as text.
pub enum CommandSpec {
    Init(Seq<char>),
    Build(Seq<char>),
    Serve { path: Seq<char>, watch: bool },
    New { name: Seq<char>, post: bool },
}

impl View for Commands {
    type V = CommandSpec;

    open spec fn view(&self) -> CommandSpec {
        match self {
            Commands::Init(p) => CommandSpec::Init(p@),
            Commands::Build(p) => CommandSpec::Build(p@),
            Commands::Serve { path, watch } => CommandSpec::Serve { path: path@, watch: *watch },
            Commands::New { name, post } => CommandSpec::New { name: name@, post: *post },
        }
    }
}

/// The view of a parsed command, if any.
pub open spec fn command_view(c: Option<Commands>) -> Option<CommandSpec> {
    match c {
        Some(c) => Some(c@),
        None => None,
    }
}

/// The first argument that is not `flag`, or `.` when there is none.
pub open spec fn first_other(args: Seq<Seq<char>>, flag: Seq<char>) -> Seq<char>
    decreases args.len(),
{
    if args.len() == 0 {
        "."@
    } else if args[0] == flag {
        first_other(args.skip(1), flag)
    } else {
        args[0]
    }
}

/// The command that `args` (the program's arguments, its own name left out) ask for.
/// The first argument names the command; `init` and `build` take the directory from the
/// second, `.` when there is none; `serve` takes the first argument other than `--watch`,
/// and watches when `--watch` is among its arguments; `new` takes the name from the second
/// and makes a post when `--post` is among its arguments, and is nothing without a name.
/// Any other first argument (`-h` and `--help` among them), or none, asks for nothing.
pub open spec fn command_of(args: Seq<Seq<char>>) -> Option<CommandSpec> {
    if args.len() == 0 {
        None
    } else {
        let cmd = args[0];
        let rest = args.skip(1);
        let path = if rest.len() > 0 {
            rest[0]
        } else {
            "."@
        };
        if cmd == "build"@ {
            Some(CommandSpec::Build(path))
        } else if cmd == "init"@ {
            Some(CommandSpec::Init(path))
        } else if cmd == "serve"@ {
            Some(
                CommandSpec::Serve {
                    path: first_other(rest, "--watch"@),
                    watch: rest.contains("--watch"@),
                },
            )
        } else if cmd == "new"@ {
            if rest.len() > 0 {
                Some(CommandSpec::New { name: rest[0], post: rest.contains("--post"@) })
            } else {
                None
            }
        } else {
            None
        }
    }
}

/// Whether some argument from position `from` on is `flag`.
fn has_flag(args: &Vec<String>, from: usize, flag: &str) -> (r: bool)
    requires
        from <= args.len(),
    ensures
        r == views(args@).skip(from as int).contains(flag@),
{
    let ghost rest = views(args@).skip(from as int);
    let mut i = from;
    while i < args.len()
        invariant
            from <= i <= args.len(),
            rest == views(args@).skip(from as int),
            forall|j: int| from <= j < i ==> args@[j]@ != flag@,
        decreases args.len() - i,
    {
        if same_text(args[i].as_str(), flag) {
            assert(rest[i - from] == flag@);
            return true;
        }
        i = i + 1;
    }
    assert forall|j: int| 0 <= j < rest.len() implies rest[j] != flag@ by {
        assert(rest[j] == args@[j + from]@);
    }
    false
}

/// The first argument from position `from` on that is not `flag`, or `.`.
fn first_other_arg(args: &Vec<String>, from: usize, flag: &str) -> (r: String)
    requires
        from <= args.len(),
    ensures
        r@ == first_other(views(args@).skip(from as int), flag@),
{
    let mut i = from;
    while i < args.len() && same_text(args[i].as_str(), flag)
        invariant
            from <= i <= args.len(),
            first_other(views(args@).skip(i as int), flag@) == first_other(
                views(args@).skip(from as int),
                flag@,
            ),
        decreases args.len() - i,
    {
        assert(views(args@).skip(i as int).skip(1) =~= views(args@).skip(i + 1));
        i = i + 1;
    }
    if i < args.len() {
        args[i].clone()
    } else {
        assert(views(args@).skip(i as int).len() == 0);
        String::from_str(".")
    }
}

/// The command that the program's arguments ask for (see `command_of`).
pub fn parse_command(args: Vec<String>) -> (r: Option<Commands>)
    ensures
        command_view(r) == command_of(views(args@)),
{
    let ghost a = views(args@);
    if args.len() == 0 {
        return None;
    }
    assert(a.skip(1) =~= views(args@).skip(1));
    let path = if args.len() > 1 {
        args[1].clone()
    } else {
        String::from_str(".")
    };
    let cmd = args[0].as_str();
    if same_text(cmd, "build") {
        Some(Commands::Build(path))
    } else if same_text(cmd, "init") {
        Some(Commands::Init(path))
    } else if same_text(cmd, "serve") {
        let watch = has_flag(&args, 1, "--watch");
        let path = first_other_arg(&args, 1, "--watch");
        Some(Commands::Serve { path, watch })
    } else if same_text(cmd, "new") {
        if args.len() > 1 {
            let post = has_flag(&args, 1, "--post");
            Some(Commands::New { name: path, post })
        } else {
            None
        }
    } else {
        None
    }
}

} // verus!
