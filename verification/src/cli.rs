use vstd::prelude::*;

verus! {

/// What the command line supplies: the access token, an optional profile
/// override, and the trailing program-plus-arguments to execute.
pub struct Args {
    pub token: String,
    pub profile: Option<String>,
    pub slop: Vec<String>,
}

/// The parsed invocation.
pub struct Cli {
    pub args: Args,
}

impl Cli {
    pub fn new(args: Args) -> (r: Cli)
        ensures
            r.args == args,
    {
        Cli { args }
    }

    /// Split the trailing words into the program and its arguments; with no
    /// trailing words there is nothing to launch.
    pub fn get_program(&self) -> (r: Option<(String, Vec<String>)>)
        ensures
            self.args.slop@.len() == 0 ==> r is None,
            self.args.slop@.len() > 0 ==> (r matches Some((program, rest)) && program@
                == self.args.slop@[0]@ && rest@.len() == self.args.slop@.len() - 1 && (forall|
                i: int,
            |
                0 <= i < rest@.len() ==> rest@[i]@ == self.args.slop@[i + 1]@)),
    {
        if self.args.slop.len() == 0 {
            return None;
        }
        let program = self.args.slop[0].clone();
        let mut rest: Vec<String> = Vec::new();
        let mut i: usize = 1;
        while i < self.args.slop.len()
            invariant
                1 <= i <= self.args.slop@.len(),
                rest@.len() == i - 1,
                forall|j: int| 0 <= j < rest@.len() ==> rest@[j]@ == self.args.slop@[j + 1]@,
            decreases self.args.slop@.len() - i,
        {
            rest.push(self.args.slop[i].clone());
            i += 1;
        }
        Some((program, rest))
    }
}

} // verus!
