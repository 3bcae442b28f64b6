//! Resolving the effective configuration from built-in defaults, the
//! override block in the store, and the service's start arguments.

use vstd::prelude::*;
use vstd::string::*;
use crate::locator::texts;
use crate::text::{opt_text, parse_u32, parsed_u32};

verus! {

/// The option string wanted when nothing overrides it.
pub const DEFAULT_OPTION_STRING: &'static str = "-private-window \"%1\"";

/// Seconds between reconciliation ticks when nothing overrides it.
pub const DEFAULT_POLL_INTERVAL: u32 = 60;

/// The start argument `--poll-interval=<seconds>`, by its key.
pub const POLL_INTERVAL_ARG: &'static str = "poll-interval";

/// The start argument `--option-string=<text>`, by its key.
pub const OPTION_STRING_ARG: &'static str = "option-string";

/// The fields read from the override block in the store; either may be
/// missing.
pub struct StoreOverrides {
    pub option_string: Option<String>,
    pub poll_interval: Option<u32>,
}

/// The configuration in force for the whole run.
pub struct EffectiveConfig {
    pub desired_option_string: String,
    pub poll_interval_seconds: u32,
}

impl EffectiveConfig {
    pub open spec fn wf(&self) -> bool {
        self.poll_interval_seconds > 0
    }
}

/// The resolved configuration, and the interval start argument that was
/// given but set aside as not a positive whole number (worth a warning).
pub struct Resolution {
    pub config: EffectiveConfig,
    pub rejected_interval: Option<String>,
}

/// An interval counts only where it is positive.
pub open spec fn usable_interval(v: Option<u32>) -> Option<u32> {
    match v {
        Some(n) => if n > 0 {
            Some(n)
        } else {
            None
        },
        None => None,
    }
}

pub open spec fn interval_from_text(arg: Option<Seq<char>>) -> Option<u32> {
    match arg {
        Some(t) => usable_interval(parsed_u32(t)),
        None => None,
    }
}

pub open spec fn store_interval(store: Option<StoreOverrides>) -> Option<u32> {
    match store {
        Some(o) => usable_interval(o.poll_interval),
        None => None,
    }
}

pub open spec fn store_options(store: Option<StoreOverrides>) -> Option<Seq<char>> {
    match store {
        Some(o) => opt_text(o.option_string),
        None => None,
    }
}

/// The interval: the start argument over the store over the default, each
/// source counting only where it supplies a usable value.
pub open spec fn resolved_interval(store: Option<StoreOverrides>, arg: Option<Seq<char>>) -> u32 {
    match interval_from_text(arg) {
        Some(n) => n,
        None => match store_interval(store) {
            Some(n) => n,
            None => DEFAULT_POLL_INTERVAL,
        },
    }
}

/// The option string: the start argument over the store over the default.
pub open spec fn resolved_options(store: Option<StoreOverrides>, arg: Option<Seq<char>>) -> Seq<
    char,
> {
    match arg {
        Some(t) => t,
        None => match store_options(store) {
            Some(t) => t,
            None => DEFAULT_OPTION_STRING@,
        },
    }
}

/// Precedence of the interval's sources: a usable start argument wins; else
/// a usable store value; else the default. A source that is absent, not a
/// number, or zero falls through to the next lower one.
pub proof fn lemma_interval_precedence(store: Option<StoreOverrides>, arg: Option<Seq<char>>)
    ensures
        interval_from_text(arg) is Some ==> resolved_interval(store, arg) == interval_from_text(
            arg,
        )->0,
        interval_from_text(arg) is None && store_interval(store) is Some ==> resolved_interval(
            store,
            arg,
        ) == store_interval(store)->0,
        interval_from_text(arg) is None && store_interval(store) is None ==> resolved_interval(
            store,
            arg,
        ) == DEFAULT_POLL_INTERVAL,
        resolved_interval(store, arg) > 0,
{
}

fn usable(v: Option<u32>) -> (r: Option<u32>)
    ensures
        r == usable_interval(v),
{
    match v {
        Some(n) => if n > 0 {
            Some(n)
        } else {
            None
        },
        None => None,
    }
}

/// Merges the three sources. `store` is `None` where the override block
/// could not be opened; the arguments are the values given for the interval
/// and the option string at start, if any.
pub fn resolve_config(
    store: &Option<StoreOverrides>,
    arg_interval: Option<String>,
    arg_options: Option<String>,
) -> (r: Resolution)
    ensures
        r.config.wf(),
        r.config.poll_interval_seconds == resolved_interval(*store, opt_text(arg_interval)),
        r.config.desired_option_string@ == resolved_options(*store, opt_text(arg_options)),
        opt_text(r.rejected_interval) == match opt_text(arg_interval) {
            Some(t) => if interval_from_text(Some(t)) is None {
                Some(t)
            } else {
                None
            },
            None => None,
        },
{
    let mut interval: u32 = DEFAULT_POLL_INTERVAL;
    let mut options = String::from_str(DEFAULT_OPTION_STRING);
    match store {
        Some(o) => {
            match usable(o.poll_interval) {
                Some(n) => {
                    interval = n;
                },
                None => {},
            }
            match &o.option_string {
                Some(t) => {
                    options = t.clone();
                },
                None => {},
            }
        },
        None => {},
    }
    let mut rejected_interval: Option<String> = None;
    match arg_interval {
        Some(t) => match usable(parse_u32(t.as_str())) {
            Some(n) => {
                interval = n;
            },
            None => {
                rejected_interval = Some(t);
            },
        },
        None => {},
    }
    match arg_options {
        Some(t) => {
            options = t;
        },
        None => {},
    }
    Resolution {
        config: EffectiveConfig { desired_option_string: options, poll_interval_seconds: interval },
        rejected_interval,
    }
}

/// `argmap::parse` accepts the argument without panicking: one that starts
/// with a single dash is taken apart byte by byte, so it must be ASCII.
pub open spec fn parser_safe(a: Seq<char>) -> bool {
    (a.len() >= 1 && a[0] == '-' && !(a.len() >= 2 && a[1] == '-')) ==> forall|i: int|
        0 <= i < a.len() ==> #[trigger] a[i] < '\u{80}'
}

pub open spec fn all_parser_safe(args: Seq<Seq<char>>) -> bool {
    forall|i: int| 0 <= i < args.len() ==> parser_safe(#[trigger] args[i])
}

/// The first value that `argmap::parse` gives for `key` among `args`.
pub uninterp spec fn start_argument_value(args: Seq<Seq<char>>, key: Seq<char>) -> Option<
    Seq<char>,
>;

/// Relies on `argmap::parse`: the map it returns, looked up by `key`, and
/// the first of the values found there. Arguments with a single leading
/// dash are sliced by byte there, which panics inside a multi-byte
/// character; `requires` keeps those out.
#[verifier::external_body]
fn start_argument(args: &Vec<String>, key: &str) -> (r: Option<String>)
    requires
        all_parser_safe(texts(args@)),
    ensures
        opt_text(r) == start_argument_value(texts(args@), key@),
{
    let (_positional, map) = argmap::parse(args.iter());
    map.get(key).and_then(|values| values.first().cloned())
}

fn is_parser_safe(a: &str) -> (r: bool)
    ensures
        r == parser_safe(a@),
{
    let len = a.unicode_len();
    if len == 0 {
        return true;
    }
    if a.get_char(0) != '-' {
        return true;
    }
    if len >= 2 && a.get_char(1) == '-' {
        return true;
    }
    assert(a@.len() >= 1 && a@[0] == '-' && !(a@.len() >= 2 && a@[1] == '-'));
    let mut i: usize = 0;
    while i < len
        invariant
            len == a@.len(),
            i <= len,
            a@.len() >= 1 && a@[0] == '-' && !(a@.len() >= 2 && a@[1] == '-'),
            forall|k: int| 0 <= k < i ==> #[trigger] a@[k] < '\u{80}',
        decreases len - i,
    {
        let c = a.get_char(i);
        if c >= '\u{80}' {
            return false;
        }
        i = i + 1;
    }
    true
}

fn are_parser_safe(args: &Vec<String>) -> (r: bool)
    ensures
        r == all_parser_safe(texts(args@)),
{
    let mut i: usize = 0;
    while i < args.len()
        invariant
            i <= args@.len(),
            forall|k: int| 0 <= k < i ==> parser_safe(#[trigger] texts(args@)[k]),
        decreases args@.len() - i,
    {
        if !is_parser_safe(args[i].as_str()) {
            assert(!parser_safe(texts(args@)[i as int]));
            return false;
        }
        i = i + 1;
    }
    true
}

/// Whether the start arguments are read at all: beyond the service's own
/// name there must be something, and every argument must be one that the
/// argument parser takes without failing.
pub open spec fn arguments_read(args: Seq<Seq<char>>) -> bool {
    args.len() > 1 && all_parser_safe(args)
}

/// Resolves the configuration with the start arguments as the service
/// manager hands them over (the first is the service's name).
pub fn resolve_with_arguments(store: &Option<StoreOverrides>, args: &Vec<String>) -> (r: Resolution)
    ensures
        r.config.wf(),
        arguments_read(texts(args@)) ==> {
            let interval_arg = start_argument_value(texts(args@), POLL_INTERVAL_ARG@);
            let options_arg = start_argument_value(texts(args@), OPTION_STRING_ARG@);
            &&& r.config.poll_interval_seconds == resolved_interval(*store, interval_arg)
            &&& r.config.desired_option_string@ == resolved_options(*store, options_arg)
        },
        !arguments_read(texts(args@)) ==> {
            &&& r.config.poll_interval_seconds == resolved_interval(*store, None)
            &&& r.config.desired_option_string@ == resolved_options(*store, None)
            &&& r.rejected_interval is None
        },
{
    if args.len() > 1 && are_parser_safe(args) {
        let interval_arg = start_argument(args, POLL_INTERVAL_ARG);
        let options_arg = start_argument(args, OPTION_STRING_ARG);
        resolve_config(store, interval_arg, options_arg)
    } else {
        resolve_config(store, None, None)
    }
}

} // verus!
