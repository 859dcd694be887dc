//! The command-line grammar: raw argument tokens become the raw option
//! values the validation step starts from. One pass over the tokens; each
//! flag either stands alone or consumes the following token as its value;
//! the single positional token is the packaging profile.

use vstd::prelude::*;
use vstd::string::StrSliceExecFns;
use crate::options::RawOptions;
use crate::util::view_of_opt;
use crate::util::views_of;

verus! {

/// The option values a token sequence denotes, field by field, before
/// validation.
#[verifier::ext_equal]
pub struct OptView {
    pub output: Option<Seq<char>>,
    pub config: Option<Seq<char>>,
    pub bins: Seq<Seq<char>>,
    pub exs: Seq<Seq<char>>,
    pub jobs: Option<u32>,
    pub features: Seq<Seq<char>>,
    pub ndf: bool,
    pub target: Option<Seq<char>>,
    pub manifest: Option<Seq<char>>,
    pub verbose: bool,
    pub quiet: bool,
    pub color: Option<Seq<char>>,
    pub release: bool,
    pub profile: Option<Seq<char>>,
}

/// What a token sequence denotes: a request for the usage text, the
/// decoded option values, or a malformed command line.
pub enum CliOutcomeV {
    Help,
    Accepted(OptView),
    Rejected,
}

/// The state decoding starts from: nothing given yet.
pub open spec fn empty_opts() -> OptView {
    OptView {
        output: None,
        config: None,
        bins: Seq::empty(),
        exs: Seq::empty(),
        jobs: None,
        features: Seq::empty(),
        ndf: false,
        target: None,
        manifest: None,
        verbose: false,
        quiet: false,
        color: None,
        release: false,
        profile: None,
    }
}

/// The raw option values as the option view they denote.
pub open spec fn raw_view(raw: RawOptions) -> OptView {
    OptView {
        output: view_of_opt(raw.output_name),
        config: view_of_opt(raw.packaging_config_path),
        bins: views_of(raw.binary_targets@),
        exs: views_of(raw.example_targets@),
        jobs: raw.jobs,
        features: views_of(raw.features@),
        ndf: raw.no_default_features,
        target: view_of_opt(raw.target_triple),
        manifest: view_of_opt(raw.manifest_path),
        verbose: raw.verbose,
        quiet: raw.quiet,
        color: view_of_opt(raw.color_mode),
        release: raw.release,
        profile: Some(raw.packaging_profile@),
    }
}

/// The grammar itself, one token at a time from position `i`. A help flag
/// wins immediately; a value-taking flag consumes the following token and
/// is malformed without one; a parallelism value must be a decimal number
/// that fits; an unknown flag, or a second positional token, is malformed;
/// the one positional token is the packaging profile. Repeated flags keep
/// the later value; repeated `--bin`, `--example` and `--features` values
/// accumulate in order.
pub open spec fn parse_from(toks: Seq<Seq<char>>, i: int, acc: OptView) -> CliOutcomeV
    recommends
        0 <= i <= toks.len(),
    decreases toks.len() - i,
{
    if i >= toks.len() {
        CliOutcomeV::Accepted(acc)
    } else {
        let t = toks[i];
        if t == "-h"@ || t == "--help"@ {
            CliOutcomeV::Help
        } else if t == "-c"@ || t == "--config"@ {
            if i + 1 >= toks.len() {
                CliOutcomeV::Rejected
            } else {
                parse_from(toks, i + 2, OptView { config: Some(toks[i + 1]), ..acc })
            }
        } else if t == "-o"@ || t == "--output"@ {
            if i + 1 >= toks.len() {
                CliOutcomeV::Rejected
            } else {
                parse_from(toks, i + 2, OptView { output: Some(toks[i + 1]), ..acc })
            }
        } else if t == "--bin"@ {
            if i + 1 >= toks.len() {
                CliOutcomeV::Rejected
            } else {
                parse_from(toks, i + 2, OptView { bins: acc.bins.push(toks[i + 1]), ..acc })
            }
        } else if t == "--example"@ {
            if i + 1 >= toks.len() {
                CliOutcomeV::Rejected
            } else {
                parse_from(toks, i + 2, OptView { exs: acc.exs.push(toks[i + 1]), ..acc })
            }
        } else if t == "-j"@ || t == "--jobs"@ {
            if i + 1 >= toks.len() {
                CliOutcomeV::Rejected
            } else if spec_dec_digits(toks[i + 1]) && spec_dec_nat(toks[i + 1]) <= u32::MAX {
                parse_from(
                    toks,
                    i + 2,
                    OptView { jobs: Some(spec_dec_nat(toks[i + 1]) as u32), ..acc },
                )
            } else {
                CliOutcomeV::Rejected
            }
        } else if t == "--features"@ {
            if i + 1 >= toks.len() {
                CliOutcomeV::Rejected
            } else {
                parse_from(
                    toks,
                    i + 2,
                    OptView { features: acc.features.push(toks[i + 1]), ..acc },
                )
            }
        } else if t == "--target"@ {
            if i + 1 >= toks.len() {
                CliOutcomeV::Rejected
            } else {
                parse_from(toks, i + 2, OptView { target: Some(toks[i + 1]), ..acc })
            }
        } else if t == "--manifest-path"@ {
            if i + 1 >= toks.len() {
                CliOutcomeV::Rejected
            } else {
                parse_from(toks, i + 2, OptView { manifest: Some(toks[i + 1]), ..acc })
            }
        } else if t == "--color"@ {
            if i + 1 >= toks.len() {
                CliOutcomeV::Rejected
            } else {
                parse_from(toks, i + 2, OptView { color: Some(toks[i + 1]), ..acc })
            }
        } else if t == "--no-default-features"@ {
            parse_from(toks, i + 1, OptView { ndf: true, ..acc })
        } else if t == "-v"@ || t == "--verbose"@ {
            parse_from(toks, i + 1, OptView { verbose: true, ..acc })
        } else if t == "-q"@ || t == "--quiet"@ {
            parse_from(toks, i + 1, OptView { quiet: true, ..acc })
        } else if t == "--release"@ {
            parse_from(toks, i + 1, OptView { release: true, ..acc })
        } else if t.len() > 0 && t[0] == '-' {
            CliOutcomeV::Rejected
        } else if acc.profile is None {
            parse_from(toks, i + 1, OptView { profile: Some(t), ..acc })
        } else {
            CliOutcomeV::Rejected
        }
    }
}

/// The decoder's answer: a request for the usage text, the decoded raw
/// option values, or a malformed command line with the reason.
#[derive(Debug)]
pub enum CliOutcome {
    Help,
    Accepted(RawOptions),
    Rejected(String),
}

/// Decodes the command-line tokens after the program name. The answer is
/// exactly what the grammar says the tokens denote; a command line whose
/// tokens denote no profile is malformed.
#[verifier::loop_isolation(false)]
#[verifier::rlimit(60)]
pub fn parse_args(args: &Vec<String>) -> (r: CliOutcome)
    ensures
        r is Help <==> parse_from(views_of(args@), 0, empty_opts()) is Help,
        r matches CliOutcome::Accepted(raw) ==> parse_from(views_of(args@), 0, empty_opts())
            == CliOutcomeV::Accepted(raw_view(raw)),
        r is Accepted <==> (parse_from(views_of(args@), 0, empty_opts()) matches CliOutcomeV::Accepted(o)
            && o.profile is Some),
{
    let ghost toks: Seq<Seq<char>> = views_of(args@);
    let mut output_name: Option<String> = None;
    let mut packaging_config_path: Option<String> = None;
    let mut binary_targets: Vec<String> = Vec::new();
    let mut example_targets: Vec<String> = Vec::new();
    let mut jobs: Option<u32> = None;
    let mut features: Vec<String> = Vec::new();
    let mut no_default_features: bool = false;
    let mut target_triple: Option<String> = None;
    let mut manifest_path: Option<String> = None;
    let mut verbose: bool = false;
    let mut quiet: bool = false;
    let mut color_mode: Option<String> = None;
    let mut release: bool = false;
    let mut profile: Option<String> = None;
    let ghost mut acc: OptView = empty_opts();
    let mut i: usize = 0;
    while i < args.len()
        invariant
            i <= args@.len(),
            parse_from(toks, 0, empty_opts()) == parse_from(toks, i as int, acc),
            acc.output == view_of_opt(output_name),
            acc.config == view_of_opt(packaging_config_path),
            acc.bins == views_of(binary_targets@),
            acc.exs == views_of(example_targets@),
            acc.jobs == jobs,
            acc.features == views_of(features@),
            acc.ndf == no_default_features,
            acc.target == view_of_opt(target_triple),
            acc.manifest == view_of_opt(manifest_path),
            acc.verbose == verbose,
            acc.quiet == quiet,
            acc.color == view_of_opt(color_mode),
            acc.release == release,
            acc.profile == view_of_opt(profile),
        decreases args@.len() - i,
    {
        proof {
            assert(toks[i as int] == args@[i as int]@);
        }
        let arg = &args[i];
        if *arg == "-h".to_owned() || *arg == "--help".to_owned() {
            return CliOutcome::Help;
        } else if *arg == "-c".to_owned() || *arg == "--config".to_owned() {
            if i + 1 >= args.len() {
                return CliOutcome::Rejected("flag -c, --config needs a value".to_owned());
            }
            proof {
                assert(toks[i + 1 as int] == args@[i + 1 as int]@);
                acc = OptView { config: Some(toks[i + 1 as int]), ..acc };
            }
            packaging_config_path = Some(args[i + 1].clone());
            i = i + 2;
        } else if *arg == "-o".to_owned() || *arg == "--output".to_owned() {
            if i + 1 >= args.len() {
                return CliOutcome::Rejected("flag -o, --output needs a value".to_owned());
            }
            proof {
                assert(toks[i + 1 as int] == args@[i + 1 as int]@);
                acc = OptView { output: Some(toks[i + 1 as int]), ..acc };
            }
            output_name = Some(args[i + 1].clone());
            i = i + 2;
        } else if *arg == "--bin".to_owned() {
            if i + 1 >= args.len() {
                return CliOutcome::Rejected("flag --bin needs a value".to_owned());
            }
            proof {
                assert(toks[i + 1 as int] == args@[i + 1 as int]@);
                acc = OptView { bins: acc.bins.push(toks[i + 1 as int]), ..acc };
            }
            binary_targets.push(args[i + 1].clone());
            proof {
                assert(acc.bins =~= views_of(binary_targets@));
            }
            i = i + 2;
        } else if *arg == "--example".to_owned() {
            if i + 1 >= args.len() {
                return CliOutcome::Rejected("flag --example needs a value".to_owned());
            }
            proof {
                assert(toks[i + 1 as int] == args@[i + 1 as int]@);
                acc = OptView { exs: acc.exs.push(toks[i + 1 as int]), ..acc };
            }
            example_targets.push(args[i + 1].clone());
            proof {
                assert(acc.exs =~= views_of(example_targets@));
            }
            i = i + 2;
        } else if *arg == "-j".to_owned() || *arg == "--jobs".to_owned() {
            if i + 1 >= args.len() {
                return CliOutcome::Rejected("flag -j, --jobs needs a value".to_owned());
            }
            proof {
                assert(toks[i + 1 as int] == args@[i + 1 as int]@);
            }
            match parse_u32(&args[i + 1]) {
                Some(n) => {
                    proof {
                        acc = OptView { jobs: Some(spec_dec_nat(toks[i + 1 as int]) as u32), ..acc };
                    }
                    jobs = Some(n);
                },
                None => {
                    return CliOutcome::Rejected(
                        "the --jobs value must be an unsigned integer".to_owned(),
                    );
                },
            }
            i = i + 2;
        } else if *arg == "--features".to_owned() {
            if i + 1 >= args.len() {
                return CliOutcome::Rejected("flag --features needs a value".to_owned());
            }
            proof {
                assert(toks[i + 1 as int] == args@[i + 1 as int]@);
                acc = OptView { features: acc.features.push(toks[i + 1 as int]), ..acc };
            }
            features.push(args[i + 1].clone());
            proof {
                assert(acc.features =~= views_of(features@));
            }
            i = i + 2;
        } else if *arg == "--target".to_owned() {
            if i + 1 >= args.len() {
                return CliOutcome::Rejected("flag --target needs a value".to_owned());
            }
            proof {
                assert(toks[i + 1 as int] == args@[i + 1 as int]@);
                acc = OptView { target: Some(toks[i + 1 as int]), ..acc };
            }
            target_triple = Some(args[i + 1].clone());
            i = i + 2;
        } else if *arg == "--manifest-path".to_owned() {
            if i + 1 >= args.len() {
                return CliOutcome::Rejected("flag --manifest-path needs a value".to_owned());
            }
            proof {
                assert(toks[i + 1 as int] == args@[i + 1 as int]@);
                acc = OptView { manifest: Some(toks[i + 1 as int]), ..acc };
            }
            manifest_path = Some(args[i + 1].clone());
            i = i + 2;
        } else if *arg == "--color".to_owned() {
            if i + 1 >= args.len() {
                return CliOutcome::Rejected("flag --color needs a value".to_owned());
            }
            proof {
                assert(toks[i + 1 as int] == args@[i + 1 as int]@);
                acc = OptView { color: Some(toks[i + 1 as int]), ..acc };
            }
            color_mode = Some(args[i + 1].clone());
            i = i + 2;
        } else if *arg == "--no-default-features".to_owned() {
            proof {
                acc = OptView { ndf: true, ..acc };
            }
            no_default_features = true;
            i = i + 1;
        } else if *arg == "-v".to_owned() || *arg == "--verbose".to_owned() {
            proof {
                acc = OptView { verbose: true, ..acc };
            }
            verbose = true;
            i = i + 1;
        } else if *arg == "-q".to_owned() || *arg == "--quiet".to_owned() {
            proof {
                acc = OptView { quiet: true, ..acc };
            }
            quiet = true;
            i = i + 1;
        } else if *arg == "--release".to_owned() {
            proof {
                acc = OptView { release: true, ..acc };
            }
            release = true;
            i = i + 1;
        } else if !arg.as_str().is_empty() && arg.as_str().get_char(0) == '-' {
            return CliOutcome::Rejected("unknown flag".to_owned());
        } else if profile.is_none() {
            proof {
                acc = OptView { profile: Some(toks[i as int]), ..acc };
            }
            profile = Some(arg.clone());
            i = i + 1;
        } else {
            return CliOutcome::Rejected("more than one <config> given".to_owned());
        }
    }
    match profile {
        Some(packaging_profile) => {
            let raw = RawOptions {
                output_name,
                packaging_config_path,
                binary_targets,
                example_targets,
                jobs,
                features,
                no_default_features,
                target_triple,
                manifest_path,
                verbose,
                quiet,
                color_mode,
                release,
                packaging_profile,
            };
            proof {
                assert(acc =~~= raw_view(raw));
            }
            CliOutcome::Accepted(raw)
        },
        None => CliOutcome::Rejected(
            "a rumpbake <config> is required, for example 'hw_generic'".to_owned(),
        ),
    }
}

/// Whether a token is one or more decimal digits.
pub open spec fn spec_dec_digits(s: Seq<char>) -> bool {
    s.len() > 0 && (forall|i: int| 0 <= i < s.len() ==> '0' <= #[trigger] s[i] && s[i] <= '9')
}

/// The value of one digit; anything else counts as zero.
pub open spec fn spec_digit_val(c: char) -> nat {
    if '0' <= c <= '9' {
        (c as int - '0' as int) as nat
    } else {
        0
    }
}

/// The number a sequence of decimal digits denotes.
pub open spec fn spec_dec_nat(s: Seq<char>) -> nat
    decreases s.len(),
{
    if s.len() == 0 {
        0
    } else {
        spec_dec_nat(s.drop_last()) * 10 + spec_digit_val(s.last())
    }
}

/// A longer digit string never denotes a smaller number.
proof fn lemma_dec_nat_prefix(s: Seq<char>, k: int)
    requires
        0 <= k <= s.len(),
    ensures
        spec_dec_nat(s.subrange(0, k)) <= spec_dec_nat(s),
    decreases s.len() - k,
{
    if k < s.len() {
        assert(s.subrange(0, k + 1).drop_last() =~= s.subrange(0, k));
        assert(s.subrange(0, k + 1).last() == s[k]);
        lemma_dec_nat_prefix(s, k + 1);
    } else {
        assert(s.subrange(0, k) =~= s);
    }
}

/// Reads a decimal number: accepts exactly the tokens that are all digits
/// and denote a value that fits, and returns that value.
#[verifier::loop_isolation(false)]
pub fn parse_u32(s: &String) -> (r: Option<u32>)
    ensures
        spec_dec_digits(s@) && spec_dec_nat(s@) <= u32::MAX ==> r == Some(
            spec_dec_nat(s@) as u32,
        ),
        !(spec_dec_digits(s@) && spec_dec_nat(s@) <= u32::MAX) ==> r is None,
{
    let st = s.as_str();
    let n = st.unicode_len();
    if n == 0 {
        return None;
    }
    let mut acc: u64 = 0;
    let mut i: usize = 0;
    while i < n
        invariant
            n == s@.len(),
            i <= n,
            forall|j: int| 0 <= j < i ==> '0' <= #[trigger] s@[j] && s@[j] <= '9',
            acc == spec_dec_nat(s@.subrange(0, i as int)),
            acc <= u32::MAX,
        decreases n - i,
    {
        let c = st.get_char(i);
        if c < '0' || c > '9' {
            return None;
        }
        let d = (c as u64) - ('0' as u64);
        proof {
            assert(s@.subrange(0, i + 1 as int).drop_last() =~= s@.subrange(0, i as int));
            assert(s@.subrange(0, i + 1 as int).last() == s@[i as int]);
        }
        let next = acc * 10 + d;
        if next > u32::MAX as u64 {
            proof {
                lemma_dec_nat_prefix(s@, i + 1 as int);
            }
            return None;
        }
        acc = next;
        i = i + 1;
    }
    proof {
        assert(s@.subrange(0, n as int) =~= s@);
    }
    Some(acc as u32)
}

} // verus!
