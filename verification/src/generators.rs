//! The value-generation algorithms: one function per generator, each taking
//! the argument mapping parsed from its call site and returning the value to
//! substitute, or a typed error.

use vstd::prelude::*;
use crate::args::{Args, ArgSpec};
use crate::clock::{format_epoch_iso, format_iso_of, in_format_range, now_epoch_seconds};
use crate::errors::GenError;
use crate::rng::{rand_alnum_char, rand_below};
use crate::strutil::{dec_rep, is_alnum_char, split_on_pipe, split_pipe, u64_to_dec};

verus! {

/// What a timestamp computation owes for a second count `secs`: success
/// whenever `secs` is in the formattable window, the exact rendered text on
/// success, and the out-of-range error only outside the window.
pub open spec fn is_ts_result(secs: int, r: Result<String, GenError>) -> bool {
    &&& (in_format_range(secs) ==> r is Ok)
    &&& (r matches Ok(s) ==> s@ == format_iso_of(secs))
    &&& (in_format_range(secs) ==> (r matches Ok(s) ==> s@.len() == 24))
    &&& (r matches Err(e) ==> e == GenError::OutOfRange && !in_format_range(secs))
}

/// `is_ts_result` for the timestamp `off` whole days before `now`.
pub open spec fn shifted_ts_result(now: int, off: int, r: Result<String, GenError>) -> bool {
    is_ts_result(now - off * 86400, r)
}

/// Renders the timestamp for a second count.
pub fn timestamp_for(secs: i64) -> (r: Result<String, GenError>)
    ensures
        is_ts_result(secs as int, r),
{
    match format_epoch_iso(secs) {
        Some(s) => Ok(s),
        None => Err(GenError::OutOfRange),
    }
}

/// The timestamp `offset_days` whole days before `now_secs`, where
/// `offset_days` is the value a uniform draw from `[0, sub_days)` gave.
pub fn date_value(now_secs: i64, offset_days: u64) -> (r: Result<String, GenError>)
    requires
        offset_days <= i64::MAX,
    ensures
        is_ts_result(now_secs - offset_days * 86400, r),
{
    let offset_secs = match (offset_days as i64).checked_mul(86400) {
        Some(v) => v,
        None => {
            proof {
                assert(!in_format_range(now_secs - offset_days * 86400)) by (nonlinear_arith)
                    requires
                        offset_days * 86400 > i64::MAX,
                        now_secs <= i64::MAX,
                ;
            }
            return Err(GenError::OutOfRange);
        },
    };
    match now_secs.checked_sub(offset_secs) {
        Some(secs) => timestamp_for(secs),
        None => {
            proof {
                assert(now_secs - offset_secs < i64::MIN);
            }
            Err(GenError::OutOfRange)
        },
    }
}

/// One random timestamp in the window that `sub_rnd_days=N` asks for: for
/// any positive `N`, the result is `now` less an offset drawn uniformly
/// from `[0, N)` days. A missing argument means the current time itself;
/// an argument that is not an integer is rejected, as is one that leaves
/// the draw space `[0, N)` empty.
pub fn date_with_now(now_secs: i64, args: &Args) -> (r: Result<String, GenError>)
    ensures
        !args@.contains_key("sub_rnd_days"@) ==> is_ts_result(now_secs as int, r),
        args@.contains_key("sub_rnd_days"@) && !(args@["sub_rnd_days"@] is Int) ==> r == Err::<
            String,
            GenError,
        >(GenError::WrongType),
        (match args@["sub_rnd_days"@] {
            ArgSpec::Int(n) => args@.contains_key("sub_rnd_days"@) && n <= 0,
            _ => false,
        }) ==> r == Err::<String, GenError>(GenError::EmptyRange),
        (match args@["sub_rnd_days"@] {
            ArgSpec::Int(n) => args@.contains_key("sub_rnd_days"@) && n > 0,
            _ => false,
        }) ==> exists|off: int|
            0 <= off < args@["sub_rnd_days"@]->Int_0 && #[trigger] shifted_ts_result(
                now_secs as int,
                off,
                r,
            ),
{
    match args.get("sub_rnd_days") {
        None => timestamp_for(now_secs),
        Some(v) => match v {
            crate::args::ArgValue::Int(n) => {
                if *n <= 0 {
                    Err(GenError::EmptyRange)
                } else {
                    let off = rand_below(*n as u64);
                    let r = date_value(now_secs, off);
                    proof {
                        assert(0 <= off < args@["sub_rnd_days"@]->Int_0 && shifted_ts_result(
                            now_secs as int,
                            off as int,
                            r,
                        ));
                    }
                    r
                }
            },
            _ => Err(GenError::WrongType),
        },
    }
}

/// The `date` generator: draws the clock once and renders a timestamp,
/// shifted back a random number of days when `sub_rnd_days` asks for it.
pub fn gen_date(args: &Args) -> (r: Result<String, GenError>)
    ensures
        r matches Ok(s) ==> exists|secs: int| s@ == format_iso_of(secs),
        args@.contains_key("sub_rnd_days"@) && !(args@["sub_rnd_days"@] is Int) ==> r == Err::<
            String,
            GenError,
        >(GenError::WrongType),
        (match args@["sub_rnd_days"@] {
            ArgSpec::Int(n) => args@.contains_key("sub_rnd_days"@) && n <= 0,
            _ => false,
        }) ==> r == Err::<String, GenError>(GenError::EmptyRange),
{
    let now = now_epoch_seconds();
    let r = date_with_now(now, args);
    proof {
        if r is Ok {
            if !args@.contains_key("sub_rnd_days"@) {
                assert(r->Ok_0@ == format_iso_of(now as int));
            }
        }
    }
    r
}

/// The `now` generator: the current time, rendered like `date` without
/// arguments. The argument mapping is ignored.
pub fn gen_now(_args: &Args) -> (r: Result<String, GenError>)
    ensures
        r matches Ok(s) ==> exists|secs: int| s@ == format_iso_of(secs),
        r matches Err(e) ==> e == GenError::OutOfRange,
{
    let now = now_epoch_seconds();
    let r = timestamp_for(now);
    proof {
        if r is Ok {
            assert(r->Ok_0@ == format_iso_of(now as int));
        }
    }
    r
}

/// The `hash` generator: sixteen characters, each drawn independently and
/// uniformly from the alphanumeric alphabet. Never fails; the argument
/// mapping is ignored.
pub fn gen_hash(_args: &Args) -> (r: Result<String, GenError>)
    ensures
        r matches Ok(s) && s@.len() == 16 && (forall|i: int|
            0 <= i < 16 ==> is_alnum_char(s@[i])),
{
    let mut out = String::new();
    let mut i: usize = 0;
    while i < 16
        invariant
            i <= 16,
            out@.len() == i,
            forall|j: int| 0 <= j < i ==> is_alnum_char(out@[j]),
        decreases 16 - i,
    {
        let c = rand_alnum_char();
        out.append(c.as_str());
        i = i + 1;
    }
    Ok(out)
}

/// The `random_value` generator: one element, drawn uniformly, of the
/// pipe-separated `options` list. A missing or non-string `options`
/// degrades to the empty string; it never fails.
pub fn gen_random_value(args: &Args) -> (r: Result<String, GenError>)
    ensures
        r is Ok,
        !args@.contains_key("options"@) ==> (r matches Ok(s) && s@ == Seq::<char>::empty()),
        args@.contains_key("options"@) && !(args@["options"@] is Str) ==> (r matches Ok(s)
            && s@ == Seq::<char>::empty()),
        (match args@["options"@] {
            ArgSpec::Str(os) => args@.contains_key("options"@),
            _ => false,
        }) ==> (r matches Ok(s) && (exists|i: int|
            0 <= i < split_on_pipe(args@["options"@]->Str_0).len() && s@ == split_on_pipe(
                args@["options"@]->Str_0,
            )[i])),
{
    match args.get("options") {
        Some(v) => match v {
            crate::args::ArgValue::Str(os) => {
                let parts = split_pipe(os.as_str());
                let idx = rand_below(parts.len() as u64) as usize;
                let chosen = parts[idx].clone();
                proof {
                    assert(0 <= idx < split_on_pipe(args@["options"@]->Str_0).len()
                        && chosen@ == split_on_pipe(args@["options"@]->Str_0)[idx as int]);
                }
                Ok(chosen)
            },
            _ => Ok(String::new()),
        },
        None => Ok(String::new()),
    }
}

/// Picks between the first two options by the drawn value: the first
/// exactly when the draw is zero, the second for every other draw.
pub fn chance_pick(draw: u64, parts: &Vec<String>) -> (r: String)
    requires
        parts@.len() >= 2,
    ensures
        r@ == if draw == 0 {
            parts@[0]@
        } else {
            parts@[1]@
        },
{
    if draw == 0 {
        parts[0].clone()
    } else {
        parts[1].clone()
    }
}

/// The `chance` generator: draws uniformly from `[0, range)` and returns
/// the first pipe-separated option exactly when the draw is zero, else the
/// second. Both arguments are required: a missing one, a wrong type, a
/// nonpositive range, and an options list with fewer than two elements are
/// each rejected with a typed error.
pub fn gen_chance(args: &Args) -> (r: Result<String, GenError>)
    ensures
        !args@.contains_key("range"@) ==> r == Err::<String, GenError>(GenError::MissingArg),
        args@.contains_key("range"@) && !(args@["range"@] is Int) ==> r == Err::<
            String,
            GenError,
        >(GenError::WrongType),
        (match args@["range"@] {
            ArgSpec::Int(n) => args@.contains_key("range"@) && n < 0,
            _ => false,
        }) ==> r == Err::<String, GenError>(GenError::WrongType),
        (match args@["range"@] {
            ArgSpec::Int(n) => args@.contains_key("range"@) && n == 0,
            _ => false,
        }) ==> r == Err::<String, GenError>(GenError::EmptyRange),
        chance_range_ok(args@) ==> {
            &&& (!args@.contains_key("options"@) ==> r == Err::<String, GenError>(
                GenError::MissingArg,
            ))
            &&& (args@.contains_key("options"@) && !(args@["options"@] is Str) ==> r == Err::<
                String,
                GenError,
            >(GenError::WrongType))
            &&& (match args@["options"@] {
                ArgSpec::Str(os) => args@.contains_key("options"@) && split_on_pipe(os).len() < 2,
                _ => false,
            } ==> r == Err::<String, GenError>(GenError::TooFewOptions))
            &&& (match args@["options"@] {
                ArgSpec::Str(os) => args@.contains_key("options"@) && split_on_pipe(os).len() >= 2,
                _ => false,
            } ==> (r matches Ok(s) && (exists|d: int|
                0 <= d < args@["range"@]->Int_0 && s@ == #[trigger] chance_outcome(
                    args@["options"@]->Str_0,
                    d,
                ))))
        },
{
    let range: u64 = match args.get("range") {
        None => {
            return Err(GenError::MissingArg);
        },
        Some(v) => match v {
            crate::args::ArgValue::Int(n) => {
                if *n < 0 {
                    return Err(GenError::WrongType);
                } else if *n == 0 {
                    return Err(GenError::EmptyRange);
                } else {
                    *n as u64
                }
            },
            _ => {
                return Err(GenError::WrongType);
            },
        },
    };
    match args.get("options") {
        None => Err(GenError::MissingArg),
        Some(v) => match v {
            crate::args::ArgValue::Str(os) => {
                let parts = split_pipe(os.as_str());
                if parts.len() < 2 {
                    return Err(GenError::TooFewOptions);
                }
                let draw = rand_below(range);
                let picked = chance_pick(draw, &parts);
                proof {
                    let views = parts@.map_values(|p: String| p@);
                    assert(views[0] == split_on_pipe(os@)[0]);
                    assert(views[1] == split_on_pipe(os@)[1]);
                    assert(0 <= draw < args@["range"@]->Int_0 && picked@ == chance_outcome(
                        args@["options"@]->Str_0,
                        draw as int,
                    ));
                }
                Ok(picked)
            },
            _ => Err(GenError::WrongType),
        },
    }
}

/// The value `chance` yields for the draw `d`: the first of the split
/// options exactly when `d` is zero, else the second.
pub open spec fn chance_outcome(opts: Seq<char>, d: int) -> Seq<char> {
    if d == 0 {
        split_on_pipe(opts)[0]
    } else {
        split_on_pipe(opts)[1]
    }
}

/// Whether the `range` argument of `chance` passed validation: present,
/// an integer, and positive.
pub open spec fn chance_range_ok(m: Map<Seq<char>, ArgSpec>) -> bool {
    m.contains_key("range"@) && (m["range"@] matches ArgSpec::Int(n) && n > 0)
}

/// The `randomint` generator: a uniform draw from `[0, range)`, rendered
/// in decimal. A missing `range` counts as zero; a draw from an empty
/// space is rejected, as is a range that is not a nonnegative integer.
pub fn gen_randomint(args: &Args) -> (r: Result<String, GenError>)
    ensures
        !args@.contains_key("range"@) ==> r == Err::<String, GenError>(GenError::EmptyRange),
        args@.contains_key("range"@) && !(args@["range"@] is Int) ==> r == Err::<
            String,
            GenError,
        >(GenError::WrongType),
        (match args@["range"@] {
            ArgSpec::Int(n) => args@.contains_key("range"@) && n < 0,
            _ => false,
        }) ==> r == Err::<String, GenError>(GenError::WrongType),
        (match args@["range"@] {
            ArgSpec::Int(n) => args@.contains_key("range"@) && n == 0,
            _ => false,
        }) ==> r == Err::<String, GenError>(GenError::EmptyRange),
        (match args@["range"@] {
            ArgSpec::Int(n) => args@.contains_key("range"@) && n > 0,
            _ => false,
        }) ==> (r matches Ok(s) && (exists|v: int|
            0 <= v < args@["range"@]->Int_0 && s@ == #[trigger] dec_rep(v as nat))),
{
    match args.get("range") {
        None => Err(GenError::EmptyRange),
        Some(v) => match v {
            crate::args::ArgValue::Int(n) => {
                if *n < 0 {
                    Err(GenError::WrongType)
                } else if *n == 0 {
                    Err(GenError::EmptyRange)
                } else {
                    let drawn = rand_below(*n as u64);
                    let s = u64_to_dec(drawn);
                    proof {
                        let vv: int = drawn as int;
                        assert(0 <= vv < args@["range"@]->Int_0 && s@ == dec_rep(vv as nat));
                    }
                    Ok(s)
                }
            },
            _ => Err(GenError::WrongType),
        },
    }
}

/// Any offset drawn from `[0, n)` days keeps the shifted timestamp inside
/// the window `[now - n days, now]`: the guarantee behind `date` with
/// `sub_rnd_days=n`.
pub proof fn lemma_date_window(now: int, n: int, off: int)
    requires
        0 <= off < n,
    ensures
        now - n * 86400 <= now - off * 86400 <= now,
{
    assert(0 <= off * 86400 <= n * 86400) by (nonlinear_arith)
        requires
            0 <= off < n,
    ;
}

} // verus!
