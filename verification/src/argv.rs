//! The argument vector of a child process.

use crate::model::{InvocationRequest, InvocationRequestView};
use vstd::prelude::*;

verus! {

/// The argument vector of a call: the tool's name, then the subcommand unless
/// it is empty, then the extra arguments in the order given.
pub open spec fn argv_of(name: Seq<char>, request: InvocationRequestView) -> Seq<Seq<char>> {
    if request.subcommand.len() == 0 {
        seq![name] + request.extra_args
    } else {
        seq![name, request.subcommand] + request.extra_args
    }
}

/// Builds the argument vector of a call.
pub fn build_argv(name: &str, request: &InvocationRequest) -> (argv: Vec<String>)
    ensures
        argv.deep_view() == argv_of(name@, request@),
{
    let mut argv: Vec<String> = Vec::new();
    argv.push(name.to_owned());
    if !request.subcommand.as_str().is_empty() {
        argv.push(request.subcommand.clone());
    }
    let ghost head = argv.deep_view();
    let mut i: usize = 0;
    while i < request.extra_args.len()
        invariant
            i <= request.extra_args.len(),
            argv.deep_view() == head + request.extra_args.deep_view().subrange(0, i as int),
        decreases request.extra_args.len() - i,
    {
        let ghost before = argv.deep_view();
        argv.push(request.extra_args[i].clone());
        assert(argv.deep_view() == before.push(request.extra_args[i as int]@));
        i += 1;
    }
    argv
}

/// Argument vector construction keeps every token and its place: the name
/// comes first, a non-empty subcommand second, and the extra arguments follow
/// in their own order with nothing between, before or after them.
pub proof fn lemma_argv_preserves_order(name: Seq<char>, request: InvocationRequestView)
    ensures
        ({
            let argv = argv_of(name, request);
            let offset: int = if request.subcommand.len() == 0 { 1 } else { 2 };
            &&& argv.len() == offset + request.extra_args.len()
            &&& argv[0] == name
            &&& request.subcommand.len() > 0 ==> argv[1] == request.subcommand
            &&& forall|i: int|
                0 <= i < request.extra_args.len() ==> argv[offset + i] == #[trigger] request.extra_args[i]
        }),
{
}

} // verus!
