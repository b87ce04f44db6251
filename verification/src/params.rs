//! Run configuration, read from command-line tokens.
//!
//! The token scan mirrors a plain left-to-right argument walk: a flag that
//! takes a value consumes the next token (and yields no value when it is the
//! last token), later occurrences win, and unknown tokens are ignored.
//! Validation aggregates every configuration error before reporting, so one
//! report names everything that is missing or invalid.

use vstd::prelude::*;

use crate::selector::regex_new;
use crate::selector::regex_ok;
use crate::selector::regex_pattern;

verus! {

/// One configuration failure.
#[derive(Clone, Copy, Debug, PartialEq, Eq, Structural)]
pub enum ConfigError {
    /// No manifest path was given (`-i` / `--index`).
    MissingIndex,
    /// No object-store root was given (`-o` / `--objects`).
    MissingObjects,
    /// The selection pattern is not valid regex syntax (`-P` / `--pattern`).
    InvalidPattern,
}

/// What a scan of the argument tokens has yielded so far.
pub struct ScanModel {
    pub index: Option<Seq<char>>,
    pub objects: Option<Seq<char>>,
    pub output: Option<Seq<char>>,
    pub pattern: Option<Seq<char>>,
    pub symlink: bool,
    pub verbose: bool,
}

/// The scan before any token: nothing given.
pub open spec fn init_scan() -> ScanModel {
    ScanModel {
        index: Option::None,
        objects: Option::None,
        output: Option::None,
        pattern: Option::None,
        symlink: false,
        verbose: false,
    }
}

/// The token after a value flag, if any.
pub open spec fn value_after(args: Seq<Seq<char>>) -> Option<Seq<char>> {
    if args.len() >= 2 {
        Option::Some(args[1])
    } else {
        Option::None
    }
}

/// What remains after a value flag and its value.
pub open spec fn rest_after_value(args: Seq<Seq<char>>) -> Seq<Seq<char>> {
    if args.len() >= 2 {
        args.skip(2)
    } else {
        Seq::empty()
    }
}

/// The left-to-right scan of the argument tokens.
pub open spec fn scan_args(args: Seq<Seq<char>>, st: ScanModel) -> ScanModel
    decreases args.len(),
{
    if args.len() == 0 {
        st
    } else {
        let a = args[0];
        if a == "-i"@ || a == "--index"@ {
            scan_args(
                rest_after_value(args),
                ScanModel {
                    index: value_after(args),
                    objects: st.objects,
                    output: st.output,
                    pattern: st.pattern,
                    symlink: st.symlink,
                    verbose: st.verbose,
                },
            )
        } else if a == "-o"@ || a == "--objects"@ {
            scan_args(
                rest_after_value(args),
                ScanModel {
                    index: st.index,
                    objects: value_after(args),
                    output: st.output,
                    pattern: st.pattern,
                    symlink: st.symlink,
                    verbose: st.verbose,
                },
            )
        } else if a == "-O"@ || a == "--output"@ {
            scan_args(
                rest_after_value(args),
                ScanModel {
                    index: st.index,
                    objects: st.objects,
                    output: value_after(args),
                    pattern: st.pattern,
                    symlink: st.symlink,
                    verbose: st.verbose,
                },
            )
        } else if a == "-P"@ || a == "--pattern"@ {
            scan_args(
                rest_after_value(args),
                ScanModel {
                    index: st.index,
                    objects: st.objects,
                    output: st.output,
                    pattern: value_after(args),
                    symlink: st.symlink,
                    verbose: st.verbose,
                },
            )
        } else if a == "-s"@ || a == "--symlink"@ {
            scan_args(
                args.skip(1),
                ScanModel {
                    index: st.index,
                    objects: st.objects,
                    output: st.output,
                    pattern: st.pattern,
                    symlink: true,
                    verbose: st.verbose,
                },
            )
        } else if a == "-v"@ || a == "--verbose"@ {
            scan_args(
                args.skip(1),
                ScanModel {
                    index: st.index,
                    objects: st.objects,
                    output: st.output,
                    pattern: st.pattern,
                    symlink: st.symlink,
                    verbose: true,
                },
            )
        } else {
            scan_args(args.skip(1), st)
        }
    }
}

/// The selection pattern a scan settles on: the given one, or match-all.
pub open spec fn effective_pattern(s: ScanModel) -> Seq<char> {
    match s.pattern {
        Option::Some(p) => p,
        Option::None => ".*"@,
    }
}

/// The output root a scan settles on: the given one, or `out`.
pub open spec fn effective_output(s: ScanModel) -> Seq<char> {
    match s.output {
        Option::Some(o) => o,
        Option::None => "out"@,
    }
}

/// Every configuration error the scanned tokens leave, in report order.
pub open spec fn config_errors(s: ScanModel) -> Seq<ConfigError> {
    (if s.index is None {
        seq![ConfigError::MissingIndex]
    } else {
        Seq::empty()
    }) + (if s.objects is None {
        seq![ConfigError::MissingObjects]
    } else {
        Seq::empty()
    }) + (if !regex_ok(effective_pattern(s)) {
        seq![ConfigError::InvalidPattern]
    } else {
        Seq::empty()
    })
}

/// The run configuration: where the manifest and the store are, where output
/// goes, which paths are in scope, and how entries are materialized.
#[derive(Debug)]
pub struct Parameters {
    pub index_file: String,
    pub objects_folder: String,
    pub output_folder: String,
    pub match_pattern: regex::Regex,
    pub symlink: bool,
    pub verbose: bool,
}

/// The model of an exec `Option<String>`.
pub open spec fn opt_view(o: Option<String>) -> Option<Seq<char>> {
    match o {
        Option::Some(s) => Option::Some(s@),
        Option::None => Option::None,
    }
}

/// The scan the exec accumulators stand for.
pub open spec fn accum_model(
    index: Option<String>,
    objects: Option<String>,
    output: Option<String>,
    pattern: Option<String>,
    symlink: bool,
    verbose: bool,
) -> ScanModel {
    ScanModel {
        index: opt_view(index),
        objects: opt_view(objects),
        output: opt_view(output),
        pattern: opt_view(pattern),
        symlink: symlink,
        verbose: verbose,
    }
}

/// Reads the configuration from the argument tokens. Returns `Ok` exactly
/// when the scanned tokens leave no configuration error; otherwise every
/// error is reported together, in order. On success the configuration holds
/// the scanned values, the defaults for output root and pattern, and a
/// selection pattern compiled from exactly the effective pattern text.
#[verifier::loop_isolation(false)]
pub fn read_from_args(args: &Vec<String>) -> (r: Result<Parameters, Vec<ConfigError>>)
    ensures
        ({
            let s = scan_args(args.deep_view(), init_scan());
            match r {
                Result::Ok(p) => {
                    &&& config_errors(s).len() == 0
                    &&& s.index matches Option::Some(ix) && p.index_file@ == ix
                    &&& s.objects matches Option::Some(ob) && p.objects_folder@ == ob
                    &&& p.output_folder@ == effective_output(s)
                    &&& regex_ok(effective_pattern(s))
                    &&& regex_pattern(p.match_pattern) == effective_pattern(s)
                    &&& p.symlink == s.symlink
                    &&& p.verbose == s.verbose
                },
                Result::Err(es) => {
                    &&& es@ == config_errors(s)
                    &&& config_errors(s).len() > 0
                },
            }
        }),
{
    let ghost a0 = args.deep_view();
    let ghost target = scan_args(a0, init_scan());
    let f_i = String::from_str("-i");
    let f_index = String::from_str("--index");
    let f_o = String::from_str("-o");
    let f_objects = String::from_str("--objects");
    let f_big_o = String::from_str("-O");
    let f_output = String::from_str("--output");
    let f_p = String::from_str("-P");
    let f_pattern = String::from_str("--pattern");
    let f_s = String::from_str("-s");
    let f_symlink = String::from_str("--symlink");
    let f_v = String::from_str("-v");
    let f_verbose = String::from_str("--verbose");
    let mut index: Option<String> = None;
    let mut objects: Option<String> = None;
    let mut output: Option<String> = None;
    let mut pattern: Option<String> = None;
    let mut symlink: bool = false;
    let mut verbose: bool = false;
    let n = args.len();
    let mut i: usize = 0;
    proof {
        assert(a0.skip(0) =~= a0);
    }
    while i < n
        invariant
            n == args.len(),
            0 <= i <= n,
            a0 == args.deep_view(),
            a0.len() == n,
            target == scan_args(a0, init_scan()),
            target == scan_args(
                a0.skip(i as int),
                accum_model(index, objects, output, pattern, symlink, verbose),
            ),
        decreases n - i,
    {
        proof {
            assert(a0.skip(i as int)[0] == a0[i as int]);
            assert(a0.skip(i as int).skip(1) =~= a0.skip(i as int + 1));
            if i + 1 < n {
                assert(a0.skip(i as int)[1] == a0[i as int + 1]);
                assert(a0.skip(i as int).skip(2) =~= a0.skip(i as int + 2));
            }
            assert(a0.skip(n as int) =~= Seq::<Seq<char>>::empty());
        }
        let arg = &args[i];
        if arg.eq(&f_i) || arg.eq(&f_index) {
            if i + 1 < n {
                index = Some(args[i + 1].clone());
                i = i + 2;
            } else {
                index = None;
                i = i + 1;
            }
        } else if arg.eq(&f_o) || arg.eq(&f_objects) {
            if i + 1 < n {
                objects = Some(args[i + 1].clone());
                i = i + 2;
            } else {
                objects = None;
                i = i + 1;
            }
        } else if arg.eq(&f_big_o) || arg.eq(&f_output) {
            if i + 1 < n {
                output = Some(args[i + 1].clone());
                i = i + 2;
            } else {
                output = None;
                i = i + 1;
            }
        } else if arg.eq(&f_p) || arg.eq(&f_pattern) {
            if i + 1 < n {
                pattern = Some(args[i + 1].clone());
                i = i + 2;
            } else {
                pattern = None;
                i = i + 1;
            }
        } else if arg.eq(&f_s) || arg.eq(&f_symlink) {
            symlink = true;
            i = i + 1;
        } else if arg.eq(&f_v) || arg.eq(&f_verbose) {
            verbose = true;
            i = i + 1;
        } else {
            i = i + 1;
        }
    }
    proof {
        assert(a0.skip(n as int) =~= Seq::<Seq<char>>::empty());
    }
    let ghost s = target;
    let mut errors: Vec<ConfigError> = Vec::new();
    if index.is_none() {
        errors.push(ConfigError::MissingIndex);
    }
    if objects.is_none() {
        errors.push(ConfigError::MissingObjects);
    }
    let pat: String = match &pattern {
        Some(p) => p.clone(),
        None => String::from_str(".*"),
    };
    let re_opt = regex_new(pat.as_str());
    if re_opt.is_none() {
        errors.push(ConfigError::InvalidPattern);
    }
    proof {
        assert(errors@ =~= config_errors(s));
    }
    if errors.len() > 0 {
        return Err(errors);
    }
    match (index, objects, re_opt) {
        (Some(ix), Some(ob), Some(re)) => Ok(
            Parameters {
                index_file: ix,
                objects_folder: ob,
                output_folder: match output {
                    Some(o) => o,
                    None => String::from_str("out"),
                },
                match_pattern: re,
                symlink,
                verbose,
            },
        ),
        _ => {
            proof {
                assert(false);
            }
            Err(errors)
        },
    }
}

} // verus!
