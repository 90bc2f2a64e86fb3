//! The command line.

use vstd::prelude::*;

verus! {

/// The name of the server unless the command line gives another.
pub const DEFAULT_SERVER_NAME: &'static str = "Karakuri";

/// The option that gives the name of the server.
pub const NAME_OPTION: &'static str = "--name";

/// The name that `args` leaves the server with, if it is called `name` before them.
///
/// Each `--name` takes the argument behind it, whatever that is; one with nothing behind
/// it gives no name. Of several names, the last one stands. Other arguments are passed
/// over.
pub open spec fn name_after(args: Seq<Seq<char>>, name: Seq<char>) -> Seq<char>
    decreases args.len(),
{
    if args.len() == 0 {
        name
    } else if args[0] != NAME_OPTION@ {
        name_after(args.skip(1), name)
    } else if args.len() == 1 {
        name
    } else {
        name_after(args.skip(2), args[1])
    }
}

/// Without the option, the name is the one the server had.
pub proof fn law_no_option_keeps_the_name(args: Seq<Seq<char>>, name: Seq<char>)
    requires
        !args.contains(NAME_OPTION@),
    ensures
        name_after(args, name) == name,
    decreases args.len(),
{
    if args.len() > 0 {
        assert(args.contains(args[0]));
        assert forall|arg: Seq<char>| args.skip(1).contains(arg) implies args.contains(arg) by {
            let i = choose|i: int| 0 <= i < args.skip(1).len() && args.skip(1)[i] == arg;
            assert(args[i + 1] == arg);
        }
        law_no_option_keeps_the_name(args.skip(1), name);
    }
}

/// An option with its name, behind arguments that are not the option, gives that name.
pub proof fn law_option_gives_the_name(before: Seq<Seq<char>>, given: Seq<char>, name: Seq<char>)
    requires
        !before.contains(NAME_OPTION@),
    ensures
        name_after(before + seq![NAME_OPTION@, given], name) == given,
    decreases before.len(),
{
    let args = before + seq![NAME_OPTION@, given];
    if before.len() == 0 {
        assert(args.skip(2) =~= Seq::<Seq<char>>::empty());
        assert(args[0] == NAME_OPTION@);
        assert(args[1] == given);
        assert(name_after(args.skip(2), given) == given);
    } else {
        assert(before.contains(before[0]));
        assert(args[0] == before[0]);
        assert(args.skip(1) =~= before.skip(1) + seq![NAME_OPTION@, given]);
        assert forall|arg: Seq<char>| before.skip(1).contains(arg) implies before.contains(
            arg,
        ) by {
            let i = choose|i: int| 0 <= i < before.skip(1).len() && before.skip(1)[i] == arg;
            assert(before[i + 1] == arg);
        }
        law_option_gives_the_name(before.skip(1), given, name);
    }
}

/// A name that is given makes no difference once another one is given behind it.
pub proof fn law_last_name_stands(
    first: Seq<char>,
    rest: Seq<Seq<char>>,
    name: Seq<char>,
)
    ensures
        name_after(seq![NAME_OPTION@, first] + rest, name) == name_after(rest, first),
{
    let args = seq![NAME_OPTION@, first] + rest;
    assert(args[0] == NAME_OPTION@);
    assert(args[1] == first);
    assert(args.skip(2) =~= rest);
}

/// An argument that is not the option makes no difference, wherever it stands outside an
/// option.
pub proof fn law_other_arguments_make_no_difference(
    arg: Seq<char>,
    rest: Seq<Seq<char>>,
    name: Seq<char>,
)
    requires
        arg != "--name"@,
    ensures
        name_after(seq![arg] + rest, name) == name_after(rest, name),
{
    let args = seq![arg] + rest;
    assert(args[0] == arg);
    assert(args.skip(1) =~= rest);
}

/// An option takes the argument behind it as the name, whatever that is, and what follows
/// starts from there; an option with nothing behind it changes nothing, and nor do no
/// arguments at all.
pub proof fn law_option_takes_what_follows(
    given: Seq<char>,
    rest: Seq<Seq<char>>,
    name: Seq<char>,
)
    ensures
        name_after(seq!["--name"@, given] + rest, name) == name_after(rest, given),
        name_after(seq!["--name"@], name) == name,
        name_after(Seq::empty(), name) == name,
{
    law_last_name_stands(given, rest, name);
    assert(seq!["--name"@][0] == NAME_OPTION@);
}

/// The name is the one the server had, or an argument that stands behind an option.
pub proof fn law_name_is_never_made_up(args: Seq<Seq<char>>, name: Seq<char>)
    ensures
        name_after(args, name) == name || exists|i: int|
            0 < i < args.len() && args[i - 1] == "--name"@ && #[trigger] args[i] == name_after(
                args,
                name,
            ),
    decreases args.len(),
{
    if args.len() > 0 && args[0] != NAME_OPTION@ {
        law_name_is_never_made_up(args.skip(1), name);
        let rest = args.skip(1);
        let found = name_after(rest, name);
        if found != name {
            let i = choose|i: int|
                0 < i < rest.len() && rest[i - 1] == "--name"@ && #[trigger] rest[i] == found;
            assert(args[i + 1] == rest[i]);
            assert(args[i] == rest[i - 1]);
        }
    } else if args.len() > 1 {
        let rest = args.skip(2);
        let found = name_after(rest, args[1]);
        law_name_is_never_made_up(rest, args[1]);
        if found == args[1] {
            assert(args[1 - 1] == "--name"@);
        } else {
            let i = choose|i: int|
                0 < i < rest.len() && rest[i - 1] == "--name"@ && #[trigger] rest[i] == found;
            assert(args[i + 2] == rest[i]);
            assert(args[i + 1] == rest[i - 1]);
        }
    }
}

/// Reads the name of the server off the arguments that follow the program's own name.
pub fn server_name(args: &Vec<String>) -> (name: String)
    ensures
        name@ == name_after(args@.map_values(|arg: String| arg@), DEFAULT_SERVER_NAME@),
        name@ == name_after(args@.map_values(|arg: String| arg@), "Karakuri"@),
        args@.len() == 0 ==> name@ == "Karakuri"@,
{
    let ghost all = args@.map_values(|arg: String| arg@);
    let option = NAME_OPTION.to_owned();
    let mut name = DEFAULT_SERVER_NAME.to_owned();
    let mut i: usize = 0;
    assert(all.skip(0) =~= all);
    while i < args.len()
        invariant
            i <= args@.len(),
            all == args@.map_values(|arg: String| arg@),
            option@ == NAME_OPTION@,
            name_after(all, DEFAULT_SERVER_NAME@) == name_after(all.skip(i as int), name@),
        decreases args@.len() - i,
    {
        assert(all.skip(i as int).skip(1) =~= all.skip(i + 1));
        if args[i] == option {
            if i + 1 < args.len() {
                assert(all.skip(i as int).skip(2) =~= all.skip(i + 2));
                assert(all.skip(i as int)[1] == args@[i + 1]@);
                name = args[i + 1].clone();
                i += 2;
            } else {
                return name;
            }
        } else {
            i += 1;
        }
    }
    name
}

} // verus!
