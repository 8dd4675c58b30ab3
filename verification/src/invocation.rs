//! What a run is asked to start: a script, by its identifier, and its
//! arguments.

use vstd::prelude::*;

verus! {

/// The name of the interpreter that runs every script.
pub open spec fn interpreter() -> Seq<char> {
    "ruby"@
}

/// The file that holds the script with the given identifier: a file of the
/// scripts directory, named by the identifier.
pub open spec fn script_file(script: Seq<char>) -> Seq<char> {
    "./lib/scripts/"@ + script + ".rb"@
}

/// What the interpreter is started with: the script's file, then the
/// arguments as they were given, in their order.
pub open spec fn process_arguments(script: Seq<char>, args: Seq<Seq<char>>) -> Seq<Seq<char>> {
    seq![script_file(script)] + args
}

/// The mathematical content of an `Invocation`.
pub struct InvocationView {
    pub script: Seq<char>,
    pub args: Seq<Seq<char>>,
}

/// A request to run one script once. It is made for one call and never
/// changed.
pub struct Invocation {
    script: String,
    args: Vec<String>,
}

impl View for Invocation {
    type V = InvocationView;

    closed spec fn view(&self) -> InvocationView {
        InvocationView { script: self.script@, args: self.args.deep_view() }
    }
}

impl Invocation {
    /// A request for the script `script` with the arguments `args`.
    pub fn new(script: &str, args: &[&str]) -> (invocation: Self)
        ensures
            invocation@.script == script@,
            invocation@.args == args.deep_view(),
    {
        let mut owned: Vec<String> = Vec::new();
        let mut i: usize = 0;
        while i < args.len()
            invariant
                i <= args.len(),
                owned.deep_view() == args.deep_view().take(i as int),
            decreases args.len() - i,
        {
            let ghost before = owned.deep_view();
            owned.push(String::from_str(args[i]));
            assert(owned.deep_view() =~= before.push(args[i as int]@));
            assert(args.deep_view().take(i + 1) =~= before.push(args[i as int]@));
            i += 1;
        }
        assert(args.deep_view().take(args.len() as int) =~= args.deep_view());
        Invocation { script: String::from_str(script), args: owned }
    }

    /// The script's identifier.
    pub fn script(&self) -> (script: &str)
        ensures
            script@ == self@.script,
    {
        self.script.as_str()
    }

    /// The arguments for the script, in their order.
    pub fn args(&self) -> (args: &Vec<String>)
        ensures
            args.deep_view() == self@.args,
    {
        &self.args
    }

    /// The program to start.
    pub fn program(&self) -> (name: &'static str)
        ensures
            name@ == interpreter(),
    {
        "ruby"
    }

    /// The path of the script's file.
    pub fn script_path(&self) -> (path: String)
        ensures
            path@ == script_file(self@.script),
    {
        let mut path = String::from_str("./lib/scripts/");
        path.append(self.script.as_str());
        path.append(".rb");
        path
    }

    /// The arguments to start the program with.
    pub fn process_args(&self) -> (out: Vec<String>)
        ensures
            out.deep_view() == process_arguments(self@.script, self@.args),
    {
        let ghost wanted = process_arguments(self@.script, self@.args);
        let mut out: Vec<String> = Vec::new();
        out.push(self.script_path());
        assert(out.deep_view() =~= wanted.take(1));
        let mut i: usize = 0;
        while i < self.args.len()
            invariant
                i <= self.args.len(),
                wanted == process_arguments(self@.script, self@.args),
                out.deep_view() == wanted.take(i + 1),
            decreases self.args.len() - i,
        {
            let ghost before = out.deep_view();
            out.push(self.args[i].clone());
            assert(out.deep_view() =~= before.push(self.args[i as int]@));
            assert(wanted.take(i + 2) =~= before.push(self.args[i as int]@));
            i += 1;
        }
        assert(wanted.take(self.args.len() + 1) =~= wanted);
        out
    }
}

} // verus!
