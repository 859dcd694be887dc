//! Construction of the external packaging invocation: the `rumpbake`
//! command line and its environment overlay. Argument order is
//! load-bearing for the external tool's parser and is pinned down exactly.

use vstd::prelude::*;
use vstd::string::StringExecFns;
use crate::error::PipelineError;
use crate::util::views_of;

verus! {

/// An external-process invocation: executable name, argument vector, and a
/// single environment override. Built once, executed once by the
/// surrounding application, never retried automatically.
#[derive(Debug)]
pub struct PackagingCommand {
    pub program: String,
    pub args: Vec<String>,
    pub env_name: String,
    pub env_value: String,
}

/// The exact argument vector handed to the packaging tool: an optional
/// `-c <config>` pair first, then the profile, then the output name, then
/// the full ordered artifact list as trailing positional arguments.
pub open spec fn spec_packaging_args(
    config: Option<Seq<char>>,
    profile: Seq<char>,
    output: Seq<char>,
    artifacts: Seq<Seq<char>>,
) -> Seq<Seq<char>> {
    (match config {
        Some(c) => seq!["-c"@, c],
        None => Seq::<Seq<char>>::empty(),
    }) + seq![profile, output] + artifacts
}

/// The given pieces joined into one line, separated by single spaces.
pub open spec fn spec_joined(items: Seq<Seq<char>>) -> Seq<char>
    decreases items.len(),
{
    if items.len() == 0 {
        Seq::<char>::empty()
    } else if items.len() == 1 {
        items[0]
    } else {
        spec_joined(items.drop_last()) + " "@ + items.last()
    }
}

/// Renders a packaging command for display: the program name followed by
/// its arguments, separated by single spaces.
#[verifier::loop_isolation(false)]
pub fn render_command(c: &PackagingCommand) -> (r: String)
    ensures
        r@ == spec_joined(seq![c.program@] + views_of(c.args@)),
{
    let mut out: String = c.program.clone();
    proof {
        assert(seq![c.program@] + views_of(c.args@.subrange(0, 0)) =~= seq![c.program@]);
    }
    let mut i: usize = 0;
    while i < c.args.len()
        invariant
            i <= c.args@.len(),
            out@ == spec_joined(seq![c.program@] + views_of(c.args@.subrange(0, i as int))),
        decreases c.args@.len() - i,
    {
        proof {
            let prev = seq![c.program@] + views_of(c.args@.subrange(0, i as int));
            let next = seq![c.program@] + views_of(c.args@.subrange(0, i + 1 as int));
            assert(next.drop_last() =~= prev);
            assert(next.last() == c.args@[i as int]@);
        }
        out.append(" ");
        out.append(c.args[i].as_str());
        i = i + 1;
    }
    proof {
        assert(seq![c.program@] + views_of(c.args@.subrange(0, c.args@.len() as int)) =~= seq![
            c.program@,
        ] + views_of(c.args@));
    }
    out
}

/// Builds the packaging invocation and classifies its exit status.
pub struct PackagingInvoker;

impl PackagingInvoker {
    /// The packaged image's final name: the explicit name when one was
    /// given, else `<projectName>.img`. Computed exactly once, only after
    /// the build has succeeded.
    pub fn output_name(explicit: Option<String>, project_name: &String) -> (r: String)
        ensures
            explicit matches Some(name) ==> r == name,
            explicit is None ==> r@ == project_name@ + ".img"@,
    {
        match explicit {
            Some(name) => name,
            None => project_name.clone().concat(".img"),
        }
    }

    /// Constructs the `rumpbake` invocation: the fixed executable name, the
    /// exact argument order, and the one fixed environment override that
    /// suppresses the tool's unrelated interactive warning.
    #[verifier::loop_isolation(false)]
    pub fn build_command(
        config: &Option<String>,
        profile: &String,
        output: &String,
        artifacts: &Vec<String>,
    ) -> (c: PackagingCommand)
        ensures
            c.program@ == "rumpbake"@,
            c.env_name@ == "RUMPRUN_WARNING_STFU"@,
            c.env_value@ == "please"@,
            config matches Some(path) ==> views_of(c.args@) == spec_packaging_args(
                Some(path@),
                profile@,
                output@,
                views_of(artifacts@),
            ),
            config is None ==> views_of(c.args@) == spec_packaging_args(
                None,
                profile@,
                output@,
                views_of(artifacts@),
            ),
    {
        let mut args: Vec<String> = Vec::new();
        match config {
            Some(path) => {
                proof {
                    assert(path@ == config.unwrap()@);
                }
                args.push("-c".to_owned());
                args.push(path.clone());
            },
            None => {},
        }
        args.push(profile.clone());
        args.push(output.clone());
        let ghost head: Seq<String> = args@;
        proof {
            assert(config is Some ==> head[0]@ == "-c"@);
            assert(config is Some ==> head[1]@ == config.unwrap()@);
            assert(head[head.len() - 2]@ == profile@);
            assert(head[head.len() - 1]@ == output@);
        }
        let mut i: usize = 0;
        while i < artifacts.len()
            invariant
                i <= artifacts@.len(),
                args@.len() == head.len() + i,
                args@.subrange(0, head.len() as int) == head,
                forall|j: int|
                    head.len() <= j < args@.len() ==> args@[j]@ == artifacts@[j - head.len()]@,
            decreases artifacts@.len() - i,
        {
            args.push(artifacts[i].clone());
            proof {
                assert(args@.subrange(0, head.len() as int) =~= head);
            }
            i = i + 1;
        }
        proof {
            let spec_config: Option<Seq<char>> = if config is Some {
                Some(config.unwrap()@)
            } else {
                None
            };
            assert(views_of(args@) =~= spec_packaging_args(
                spec_config,
                profile@,
                output@,
                views_of(artifacts@),
            ));
        }
        PackagingCommand {
            program: "rumpbake".to_owned(),
            args,
            env_name: "RUMPRUN_WARNING_STFU".to_owned(),
            env_value: "please".to_owned(),
        }
    }

    /// A zero exit from the external process is success; any non-zero exit
    /// is the fatal error `PackagingFailed` carrying that status.
    pub fn classify_exit(status: i32) -> (r: Result<(), PipelineError>)
        ensures
            status == 0 ==> r == Ok::<(), PipelineError>(()),
            status != 0 ==> r == Err::<(), PipelineError>(PipelineError::PackagingFailed(status)),
    {
        if status == 0 {
            Ok(())
        } else {
            Err(PipelineError::PackagingFailed(status))
        }
    }
}

} // verus!
