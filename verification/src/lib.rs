//! GitOps-style configuration deployment agent: packs a configuration
//! source tree into an archive, exchanges it with a shared remote object
//! store, and applies it to the local machine through an external
//! activation tool, either on demand or as a polling daemon.
use vstd::prelude::*;

pub mod archive;
pub mod config;
pub mod daemon;
pub mod data_dir;
pub mod opts;
pub mod remote;
pub mod sched;
pub mod text;

use crate::archive::{FsEntry, FsEntryV, entry_views};
use crate::remote::arg_views;
use crate::text::str_eq;

verus! {

/// Everything that can go wrong inside the library's own logic. I/O
/// failures stay with the callers that perform the I/O.
#[derive(Debug, Clone)]
pub enum NpcnixError {
    /// The locator's scheme has no transport behind it.
    ProtocolNotSupported { scheme: String },
    /// The locator has no host part to name a bucket.
    InvalidRemote,
    /// The locator's path holds no key after a slash.
    RemoteKeyMissing,
    /// No remote locator is configured.
    RemoteNotSet,
    /// No configuration name is configured and none was given.
    ConfigurationNotSet,
    /// The source tree holds no flake.nix manifest.
    MissingFlakeManifest,
    /// The activation tool exited with a failure, carrying its exit code.
    ActivationFailed { exit_code: Option<i32> },
    /// The persistent config file does not parse.
    MalformedConfig,
    /// A transport call failed or its metadata response did not parse.
    TransportFailed,
}

impl NpcnixError {
    /// A human-readable description of the failure.
    pub fn message(&self) -> String {
        match self {
            NpcnixError::ProtocolNotSupported { scheme } => String::from_str(
                "Protocol not supported: ",
            ).concat(scheme.as_str()),
            NpcnixError::InvalidRemote => String::from_str("Invalid URL"),
            NpcnixError::RemoteKeyMissing => String::from_str("Path doesn't start with a /"),
            NpcnixError::RemoteNotSet => String::from_str("Remote not set"),
            NpcnixError::ConfigurationNotSet => String::from_str("configuration not set"),
            NpcnixError::MissingFlakeManifest => String::from_str(
                "Flake source directory does not contain flake.nix file",
            ),
            NpcnixError::ActivationFailed { exit_code: _ } => String::from_str(
                "activation tool returned a failing exit code",
            ),
            NpcnixError::MalformedConfig => String::from_str("Failed to load config"),
            NpcnixError::TransportFailed => String::from_str("transport command failed"),
        }
    }
}

/// Stop policy for the polling loop: stop after the first cycle of any
/// outcome, or only after the first cycle that activated something.
#[derive(Debug, Clone, Copy, PartialEq, Eq, Structural)]
pub enum Once {
    Any,
    Activate,
}

/// Decides whether the polling loop should stop after a cycle, given the
/// requested stop policy and whether the cycle activated a configuration.
pub fn should_stop_after(once: Option<Once>, activated: bool) -> (r: bool)
    ensures
        r == (once == Some(Once::Any) || (once == Some(Once::Activate) && activated)),
{
    match once {
        None => false,
        Some(Once::Any) => true,
        Some(Once::Activate) => activated,
    }
}

/// Extra trust settings handed through verbatim to the activation tool.
#[derive(Debug)]
pub struct ActivateOpts {
    pub extra_substituters: Vec<String>,
    pub extra_trusted_public_keys: Vec<String>,
}

/// One repeated `--option <name> <value>` group per value.
pub open spec fn spec_repeat_option(name: Seq<char>, vals: Seq<Seq<char>>) -> Seq<Seq<char>>
    decreases vals.len(),
{
    if vals.len() == 0 {
        Seq::empty()
    } else {
        seq!["--option"@, name, vals[0]] + spec_repeat_option(name, vals.drop_first())
    }
}

proof fn lemma_repeat_option_push(name: Seq<char>, vals: Seq<Seq<char>>, v: Seq<char>)
    ensures
        spec_repeat_option(name, vals.push(v)) == spec_repeat_option(name, vals) + seq![
            "--option"@,
            name,
            v,
        ],
    decreases vals.len(),
{
    if vals.len() == 0 {
        assert(vals.push(v) =~= seq![v]);
        assert(seq![v].drop_first() =~= Seq::<Seq<char>>::empty());
        assert(spec_repeat_option(name, Seq::empty()) == Seq::<Seq<char>>::empty());
        assert(seq!["--option"@, name, v] + Seq::<Seq<char>>::empty() =~= seq![
            "--option"@,
            name,
            v,
        ]);
        assert(spec_repeat_option(name, vals) + seq!["--option"@, name, v] =~= seq![
            "--option"@,
            name,
            v,
        ]);
    } else {
        assert(vals.push(v)[0] == vals[0]);
        assert(vals.push(v).drop_first() =~= vals.drop_first().push(v));
        lemma_repeat_option_push(name, vals.drop_first(), v);
        assert(seq!["--option"@, name, vals[0]] + (spec_repeat_option(name, vals.drop_first())
            + seq!["--option"@, name, v]) =~= (seq!["--option"@, name, vals[0]]
            + spec_repeat_option(name, vals.drop_first())) + seq!["--option"@, name, v]);
    }
}

/// The activation tool's argument list: switch with trace output, one
/// option group per extra substituter and per extra trusted key, then the
/// flake reference selecting the named configuration.
pub open spec fn spec_activation_args(
    configuration: Seq<char>,
    subs: Seq<Seq<char>>,
    keys: Seq<Seq<char>>,
) -> Seq<Seq<char>> {
    seq!["switch"@, "-L"@] + spec_repeat_option("extra-substituters"@, subs) + spec_repeat_option(
        "extra-trusted-public-keys"@,
        keys,
    ) + seq!["--flake"@, ".#"@ + configuration]
}

/// Plans the argument list the activation tool is invoked with, run from
/// the source tree, to switch to the named configuration.
pub fn activation_args(configuration: &str, activate_opts: &ActivateOpts) -> (r: Vec<String>)
    ensures
        arg_views(r@) == spec_activation_args(
            configuration@,
            arg_views(activate_opts.extra_substituters@),
            arg_views(activate_opts.extra_trusted_public_keys@),
        ),
{
    let ghost base0: Seq<Seq<char>> = seq!["switch"@, "-L"@];
    let mut args: Vec<String> = Vec::new();
    args.push(String::from_str("switch"));
    args.push(String::from_str("-L"));
    proof {
        assert(arg_views(args@) =~= base0);
    }
    let subs = &activate_opts.extra_substituters;
    let mut i: usize = 0;
    while i < subs.len()
        invariant
            i <= subs@.len(),
            arg_views(args@) == base0 + spec_repeat_option(
                "extra-substituters"@,
                arg_views(subs@.subrange(0, i as int)),
            ),
            base0 == seq!["switch"@, "-L"@],
        decreases subs@.len() - i,
    {
        let ghost pre = arg_views(subs@.subrange(0, i as int));
        args.push(String::from_str("--option"));
        args.push(String::from_str("extra-substituters"));
        args.push(subs[i].clone());
        proof {
            assert(arg_views(subs@.subrange(0, i + 1)) =~= pre.push(subs@[i as int]@));
            lemma_repeat_option_push("extra-substituters"@, pre, subs@[i as int]@);
            assert(arg_views(args@) =~= (base0 + spec_repeat_option("extra-substituters"@, pre))
                + seq!["--option"@, "extra-substituters"@, subs@[i as int]@]);
            assert(arg_views(args@) =~= base0 + spec_repeat_option(
                "extra-substituters"@,
                arg_views(subs@.subrange(0, i + 1)),
            ));
        }
        i += 1;
    }
    proof {
        assert(subs@.subrange(0, subs@.len() as int) =~= subs@);
    }
    let ghost base1: Seq<Seq<char>> = base0 + spec_repeat_option(
        "extra-substituters"@,
        arg_views(subs@),
    );
    let keys = &activate_opts.extra_trusted_public_keys;
    let mut k: usize = 0;
    while k < keys.len()
        invariant
            k <= keys@.len(),
            arg_views(args@) == base1 + spec_repeat_option(
                "extra-trusted-public-keys"@,
                arg_views(keys@.subrange(0, k as int)),
            ),
            base1 == seq!["switch"@, "-L"@] + spec_repeat_option(
                "extra-substituters"@,
                arg_views(activate_opts.extra_substituters@),
            ),
            keys == activate_opts.extra_trusted_public_keys,
        decreases keys@.len() - k,
    {
        let ghost pre = arg_views(keys@.subrange(0, k as int));
        args.push(String::from_str("--option"));
        args.push(String::from_str("extra-trusted-public-keys"));
        args.push(keys[k].clone());
        proof {
            assert(arg_views(keys@.subrange(0, k + 1)) =~= pre.push(keys@[k as int]@));
            lemma_repeat_option_push("extra-trusted-public-keys"@, pre, keys@[k as int]@);
            assert(arg_views(args@) =~= (base1 + spec_repeat_option(
                "extra-trusted-public-keys"@,
                pre,
            )) + seq!["--option"@, "extra-trusted-public-keys"@, keys@[k as int]@]);
            assert(arg_views(args@) =~= base1 + spec_repeat_option(
                "extra-trusted-public-keys"@,
                arg_views(keys@.subrange(0, k + 1)),
            ));
        }
        k += 1;
    }
    proof {
        assert(keys@.subrange(0, keys@.len() as int) =~= keys@);
    }
    args.push(String::from_str("--flake"));
    args.push(String::from_str(".#").concat(configuration));
    proof {
        assert(arg_views(args@) =~= spec_activation_args(
            configuration@,
            arg_views(activate_opts.extra_substituters@),
            arg_views(activate_opts.extra_trusted_public_keys@),
        ));
    }
    args
}

/// Judges the activation tool's exit: success is success, and any other
/// exit is a failure carrying the exit code. The engine never retries;
/// retry policy lives with the polling loop.
pub fn activation_outcome(success: bool, exit_code: Option<i32>) -> (r: Result<(), NpcnixError>)
    ensures
        match r {
            Ok(_) => success,
            Err(e) => !success && (e matches NpcnixError::ActivationFailed { exit_code: c } && c
                == exit_code),
        },
{
    if success {
        Ok(())
    } else {
        Err(NpcnixError::ActivationFailed { exit_code })
    }
}

/// Whether some immediate child of the source tree bears the given name.
pub open spec fn spec_has_entry_named(entries: Seq<FsEntryV>, name: Seq<char>) -> bool {
    exists|i: int| 0 <= i < entries.len() && entries[i].name == name
}

/// Precondition of packing and activation: the source tree's immediate
/// children must include the flake.nix manifest; its absence is a hard
/// failure before any work is attempted.
pub fn verify_flake_src(entries: &Vec<FsEntry>) -> (r: Result<(), NpcnixError>)
    ensures
        match r {
            Ok(_) => spec_has_entry_named(entry_views(entries@), "flake.nix"@),
            Err(e) => !spec_has_entry_named(entry_views(entries@), "flake.nix"@) && (e matches
            NpcnixError::MissingFlakeManifest),
        },
{
    let mut i: usize = 0;
    while i < entries.len()
        invariant
            i <= entries@.len(),
            forall|j: int| 0 <= j < i ==> entry_views(entries@)[j].name != "flake.nix"@,
        decreases entries@.len() - i,
    {
        if str_eq(entries[i].name.as_str(), "flake.nix") {
            proof {
                assert(entry_views(entries@)[i as int].name == "flake.nix"@);
            }
            return Ok(());
        }
        i += 1;
    }
    Err(NpcnixError::MissingFlakeManifest)
}

} // verus!
