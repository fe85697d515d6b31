//! The argument list of the generator process.

use crate::request::{GenerationRequest, RequestView};
use std::path::PathBuf;
use vstd::prelude::*;

verus! {

/// One argument of the generator process: a piece of text, or a path exactly
/// as the request gave it.
#[derive(Debug, Clone, Copy, PartialEq, Eq)]
pub enum Arg<'a> {
    Text(&'a str),
    Path(&'a PathBuf),
}

/// The mathematical content of an [`Arg`].
pub enum ArgView {
    Text(Seq<char>),
    Path(PathBuf),
}

impl<'a> View for Arg<'a> {
    type V = ArgView;

    open spec fn view(&self) -> ArgView {
        match *self {
            Arg::Text(text) => ArgView::Text(text@),
            Arg::Path(path) => ArgView::Path(*path),
        }
    }
}

impl<'a> DeepView for Arg<'a> {
    type V = ArgView;

    open spec fn deep_view(&self) -> ArgView {
        self@
    }
}

/// The tokens of an optional list, in their order; none where the list is
/// absent.
pub open spec fn spec_tokens(list: Option<Seq<Seq<char>>>) -> Seq<ArgView> {
    match list {
        Some(tokens) => tokens.map_values(|token: Seq<char>| ArgView::Text(token)),
        None => Seq::empty(),
    }
}

/// The arguments that do not depend on the extra tokens: the artifact to run,
/// the `generate` subcommand, and the input, language and output flags.
pub open spec fn spec_fixed_args(artifact: Seq<char>, request: RequestView) -> Seq<ArgView> {
    seq![
        ArgView::Text("-jar"@),
        ArgView::Text(artifact),
        ArgView::Text("generate"@),
        ArgView::Text("-i"@),
        ArgView::Path(request.spec_file),
        ArgView::Text("-g"@),
        ArgView::Text(request.language),
        ArgView::Text("-o"@),
        ArgView::Path(request.output_dir),
    ]
}

/// The whole argument list: the fixed arguments, then every option token,
/// then every value token, each list in its given order.
pub open spec fn spec_generator_args(artifact: Seq<char>, request: RequestView) -> Seq<ArgView> {
    spec_fixed_args(artifact, request) + spec_tokens(request.config_options) + spec_tokens(
        request.config_values,
    )
}

/// Appends the tokens of `list` to `args`, in their order.
fn push_tokens<'a>(args: &mut Vec<Arg<'a>>, list: &'a Option<Vec<String>>)
    ensures
        final(args).deep_view() == old(args).deep_view() + spec_tokens(list.deep_view()),
{
    match list {
        Some(tokens) => {
            let ghost before = args.deep_view();
            let mut i: usize = 0;
            while i < tokens.len()
                invariant
                    i <= tokens.len(),
                    args.deep_view() == before + spec_tokens(list.deep_view()).take(i as int),
                    *list == Some(*tokens),
                decreases tokens.len() - i,
            {
                let ghost earlier = args.deep_view();
                args.push(Arg::Text(tokens[i].as_str()));
                proof {
                    let all = spec_tokens(list.deep_view());
                    assert(all[i as int] == ArgView::Text(tokens[i as int]@));
                    assert(args.deep_view() =~= earlier.push(all[i as int]));
                    assert(all.take(i + 1) =~= all.take(i as int).push(all[i as int]));
                }
                i += 1;
            }
            assert(spec_tokens(list.deep_view()).take(i as int) =~= spec_tokens(list.deep_view()));
        },
        None => {
            assert(args.deep_view() + spec_tokens(list.deep_view()) =~= args.deep_view());
        },
    }
}

/// Builds the argument list of the generator process for `request`, run from
/// the artifact at `artifact`.
pub fn generator_args<'a>(artifact: &'a str, request: &'a GenerationRequest) -> (args: Vec<Arg<'a>>)
    ensures
        args.deep_view() == spec_generator_args(artifact@, request@),
{
    let mut args: Vec<Arg<'a>> = Vec::new();
    args.push(Arg::Text("-jar"));
    args.push(Arg::Text(artifact));
    args.push(Arg::Text("generate"));
    args.push(Arg::Text("-i"));
    args.push(Arg::Path(&request.spec_file));
    args.push(Arg::Text("-g"));
    args.push(Arg::Text(request.language.as_str()));
    args.push(Arg::Text("-o"));
    args.push(Arg::Path(&request.output_dir));
    assert(args.deep_view() == spec_fixed_args(artifact@, request@));
    push_tokens(&mut args, &request.config_options);
    push_tokens(&mut args, &request.config_values);
    args
}

} // verus!
