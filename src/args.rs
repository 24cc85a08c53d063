use vstd::prelude::*;

verus! {

/// An argument that names an option rather than a value: it begins with `-`.
pub open spec fn is_flag(arg: Seq<char>) -> bool {
    arg.len() > 0 && arg[0] == '-'
}

/// The index of the first option at or after `i`, or the end of `args`.
pub open spec fn first_flag_from(args: Seq<String>, i: int) -> int
    decreases args.len() - i,
{
    if i >= args.len() {
        args.len() as int
    } else if is_flag(args[i]@) {
        i
    } else {
        first_flag_from(args, i + 1)
    }
}

/// Whether `arg` begins with `-`.
pub fn arg_is_flag(arg: &str) -> (r: bool)
    ensures
        r == is_flag(arg@),
{
    arg.unicode_len() > 0 && arg.get_char(0) == '-'
}

/// The crate specs of a command line (program name first, then the verb):
/// the arguments after the verb, up to the first option.
pub fn get_cratespecs(args: &Vec<String>) -> (r: Vec<String>)
    ensures
        args@.len() <= 2 ==> r@.len() == 0,
        args@.len() > 2 ==> r@ == args@.subrange(2, first_flag_from(args@, 2)),
{
    let mut r: Vec<String> = Vec::new();
    let mut i: usize = 2;
    if args.len() <= 2 {
        return r;
    }
    while i < args.len()
        invariant
            2 <= i <= args@.len(),
            first_flag_from(args@, 2) == first_flag_from(args@, i as int),
            r@ == args@.subrange(2, i as int),
        decreases args@.len() - i,
    {
        if arg_is_flag(args[i].as_str()) {
            return r;
        }
        r.push(args[i].clone());
        assert(args@.subrange(2, i + 1) =~= args@.subrange(2, i as int).push(args@[i as int]));
        i = i + 1;
    }
    r
}

/// Where a scan of the command line for one option stands.
pub struct FlagScan {
    /// The option was just seen, and its value is due next.
    pub pending: bool,
    /// The values found so far.
    pub values: Seq<String>,
    /// The index of an option found where a value was due.
    pub bad: Option<int>,
}

/// The scan for `flag` after the first `n` arguments. Each occurrence of the
/// option takes the next argument as its value; an option in that place
/// spoils the command line.
pub open spec fn scan_flag(args: Seq<String>, flag: Seq<char>, n: int) -> FlagScan
    decreases n,
{
    if n <= 0 {
        FlagScan { pending: false, values: Seq::empty(), bad: None }
    } else {
        let prev = scan_flag(args, flag, n - 1);
        let a = args[n - 1];
        if prev.bad is Some {
            prev
        } else if a@ == flag {
            FlagScan { pending: true, ..prev }
        } else if prev.pending {
            if is_flag(a@) {
                FlagScan { bad: Some(n - 1), ..prev }
            } else {
                FlagScan { pending: false, values: prev.values.push(a), bad: None }
            }
        } else {
            prev
        }
    }
}

/// An option was followed by another option where its value was due.
#[derive(Debug, PartialEq, Eq)]
pub struct MalformedArgs {
    pub flag: String,
    pub found: String,
}

/// The values given to `flag` on a command line: each occurrence of `flag`
/// takes the argument after it. Fails where that argument is itself an option.
pub fn get_flag(args: &Vec<String>, flag: &str) -> (r: Result<Vec<String>, MalformedArgs>)
    ensures
        match scan_flag(args@, flag@, args@.len() as int).bad {
            Some(i) => match r {
                Err(e) => e.flag@ == flag@ && e.found == args@[i],
                Ok(_) => false,
            },
            None => match r {
                Ok(v) => v@ == scan_flag(args@, flag@, args@.len() as int).values,
                Err(_) => false,
            },
        },
{
    let mut list: Vec<String> = Vec::new();
    let mut flag_found = false;
    let mut i: usize = 0;
    while i < args.len()
        invariant
            i <= args@.len(),
            scan_flag(args@, flag@, i as int).bad is None,
            scan_flag(args@, flag@, i as int).pending == flag_found,
            scan_flag(args@, flag@, i as int).values == list@,
        decreases args@.len() - i,
    {
        let arg = &args[i];
        if same_text(arg.as_str(), flag) {
            flag_found = true;
        } else if flag_found {
            if arg_is_flag(arg.as_str()) {
                proof {
                    lemma_bad_is_kept(args@, flag@, i as int + 1, args@.len() as int);
                }
                return Err(MalformedArgs { flag: String::from_str(flag), found: arg.clone() });
            }
            list.push(arg.clone());
            flag_found = false;
        }
        i = i + 1;
    }
    Ok(list)
}

proof fn lemma_bad_is_kept(args: Seq<String>, flag: Seq<char>, m: int, n: int)
    requires
        0 < m <= n,
        scan_flag(args, flag, m).bad is Some,
    ensures
        scan_flag(args, flag, n) == scan_flag(args, flag, m),
    decreases n - m,
{
    if n > m {
        lemma_bad_is_kept(args, flag, m, n - 1);
    }
}

/// Whether two texts are equal.
pub fn same_text(a: &str, b: &str) -> (r: bool)
    ensures
        r == (a@ == b@),
{
    String::from_str(a) == String::from_str(b)
}

} // verus!
