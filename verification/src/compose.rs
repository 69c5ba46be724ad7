//! The command composer: appends the optional cargo and test-harness
//! tokens to a command skeleton, in a fixed order, as a pure function of
//! the configuration.

use vstd::prelude::*;
use crate::config::TestCmdArgs;
use crate::strings::{dec_digits, join_comma, spec_join_comma, u32_to_string, views};

verus! {

broadcast use vstd::string::group_string_axioms;

/// `--jobs <n>` when a job count is set.
pub open spec fn spec_jobs_part(args: TestCmdArgs) -> Seq<Seq<char>> {
    match args.jobs {
        Some(j) => seq!["--jobs"@, dec_digits(j as nat)],
        None => Seq::empty(),
    }
}

/// `--features <comma-joined list>` when a non-empty feature list is set.
pub open spec fn spec_features_part(args: TestCmdArgs) -> Seq<Seq<char>> {
    match args.features {
        Some(f) => if f@.len() > 0 {
            seq!["--features"@, spec_join_comma(views(f@))]
        } else {
            Seq::empty()
        },
        None => Seq::empty(),
    }
}

/// `--no-default-features` when the flag is set.
pub open spec fn spec_no_default_features_part(args: TestCmdArgs) -> Seq<Seq<char>> {
    if args.no_default_features {
        seq!["--no-default-features"@]
    } else {
        Seq::empty()
    }
}

/// The separator and the colour token, always present so colour survives
/// output capture.
pub open spec fn spec_harness_part() -> Seq<Seq<char>> {
    seq!["--"@, "--color=always"@]
}

/// `--test-threads <n>` when a thread count is set.
pub open spec fn spec_threads_part(args: TestCmdArgs) -> Seq<Seq<char>> {
    match args.threads {
        Some(t) => seq!["--test-threads"@, dec_digits(t as nat)],
        None => Seq::empty(),
    }
}

/// `--nocapture` when the flag is set.
pub open spec fn spec_no_capture_part(args: TestCmdArgs) -> Seq<Seq<char>> {
    if args.no_capture {
        seq!["--nocapture"@]
    } else {
        Seq::empty()
    }
}

/// All optional tokens, in their fixed order: cargo options first, then
/// the harness separator and the harness options.
pub open spec fn spec_optional_args(args: TestCmdArgs) -> Seq<Seq<char>> {
    spec_jobs_part(args) + spec_features_part(args) + spec_no_default_features_part(args)
        + spec_harness_part() + spec_threads_part(args) + spec_no_capture_part(args)
}

/// Appends the optional tokens for `args` to `cmd_args`.
pub fn push_optional_args(cmd_args: &mut Vec<String>, args: &TestCmdArgs)
    ensures
        views(final(cmd_args)@) == views(old(cmd_args)@) + spec_optional_args(*args),
{
    let ghost base = views(cmd_args@);
    if let Some(jobs) = args.jobs {
        cmd_args.push("--jobs".to_owned());
        cmd_args.push(u32_to_string(jobs));
    }
    if let Some(features) = &args.features {
        if features.len() > 0 {
            cmd_args.push("--features".to_owned());
            cmd_args.push(join_comma(features));
        }
    }
    if args.no_default_features {
        cmd_args.push("--no-default-features".to_owned());
    }
    cmd_args.push("--".to_owned());
    cmd_args.push("--color=always".to_owned());
    if let Some(threads) = args.threads {
        cmd_args.push("--test-threads".to_owned());
        cmd_args.push(u32_to_string(threads));
    }
    if args.no_capture {
        cmd_args.push("--nocapture".to_owned());
    }
    proof {
        assert(views(cmd_args@) =~= base + spec_optional_args(*args));
    }
}

/// Composition is deterministic and order-preserving: the token sequence
/// is a function of the skeleton and the configuration alone, and the
/// skeleton stands unchanged at the front.
pub proof fn lemma_compose_deterministic(
    base: Seq<Seq<char>>,
    args: TestCmdArgs,
    r1: Seq<Seq<char>>,
    r2: Seq<Seq<char>>,
)
    requires
        r1 == base + spec_optional_args(args),
        r2 == base + spec_optional_args(args),
    ensures
        r1 == r2,
        r1.take(base.len() as int) == base,
{
    assert(r1.take(base.len() as int) =~= base);
}

/// A decimal rendering is non-empty and starts with a digit character.
proof fn lemma_dec_digits_starts_with_digit(n: nat)
    ensures
        dec_digits(n).len() >= 1,
        is_digit(dec_digits(n)[0]),
    decreases n,
{
    if n >= 10 {
        lemma_dec_digits_starts_with_digit(n / 10);
    }
}

/// A decimal digit character.
pub open spec fn is_digit(c: char) -> bool {
    c == '0' || c == '1' || c == '2' || c == '3' || c == '4' || c == '5' || c == '6' || c == '7'
        || c == '8' || c == '9'
}

/// Flag presence: a set job count puts `--jobs` immediately before its
/// value, a set capture flag puts `--nocapture` at the end, and an empty
/// feature list emits no `--features` token at all.
pub proof fn lemma_compose_flag_presence(args: TestCmdArgs)
    ensures
        args.jobs matches Some(j) ==> {
            let opt = spec_optional_args(args);
            opt.len() >= 2 && opt[0] == "--jobs"@ && opt[1] == dec_digits(j as nat)
        },
        args.no_capture ==> spec_optional_args(args).last() == "--nocapture"@,
        (args.features matches Some(f) && f@.len() == 0) ==> !spec_optional_args(args).contains(
            "--features"@,
        ),
{
    let opt = spec_optional_args(args);
    if let Some(f) = args.features {
        if f@.len() == 0 {
            reveal_strlit("--jobs");
            reveal_strlit("--features");
            reveal_strlit("--no-default-features");
            reveal_strlit("--");
            reveal_strlit("--color=always");
            reveal_strlit("--test-threads");
            reveal_strlit("--nocapture");
            assert(("--jobs"@).len() == 6);
            assert(("--features"@).len() == 10);
            assert(("--no-default-features"@).len() == 21);
            assert(("--"@).len() == 2);
            assert(("--color=always"@).len() == 14);
            assert(("--test-threads"@).len() == 14);
            assert(("--nocapture"@).len() == 11);
            assert(("--test-threads"@)[2] != ("--features"@)[2]);
            if let Some(j) = args.jobs {
                lemma_dec_digits_starts_with_digit(j as nat);
                assert(dec_digits(j as nat)[0] != ("--features"@)[0]);
            }
            if let Some(t) = args.threads {
                lemma_dec_digits_starts_with_digit(t as nat);
                assert(dec_digits(t as nat)[0] != ("--features"@)[0]);
            }
            assert forall|i: int| 0 <= i < opt.len() implies opt[i] != "--features"@ by {
                assert(spec_features_part(args) =~= Seq::<Seq<char>>::empty());
            }
            assert(!opt.contains("--features"@));
        }
    }
}

} // verus!
