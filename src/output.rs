use vstd::prelude::*;

verus! {

/// The base name of a path: its last component, if it has one that is a
/// name.
pub uninterp spec fn base_name_of(path: Seq<char>) -> Option<Seq<char>>;

/// Relies on `Path::file_name`: the base name depends on the path alone.
#[verifier::external_body]
fn file_name(path: &str) -> (r: Option<String>)
    ensures
        r matches Some(s) ==> base_name_of(path@) == Some(s@),
        r is None ==> base_name_of(path@) is None,
{
    std::path::Path::new(path).file_name().map(|s| s.to_string_lossy().into_owned())
}

/// Relies on `Path::exists`: whether something is at the path now.
#[verifier::external_body]
fn path_exists(path: &str) -> bool {
    std::path::Path::new(path).exists()
}

/// Relies on `String::push`: the character is appended.
#[verifier::external_body]
fn push_char(s: &mut String, c: char)
    ensures
        final(s)@ == old(s)@.push(c),
{
    s.push(c)
}

/// The decimal digit for `d < 10`.
pub open spec fn digit_char(d: nat) -> char {
    ((48 + d) as u8) as char
}

/// The decimal representation of `n`.
pub open spec fn decimal(n: nat) -> Seq<char>
    decreases n,
{
    if n < 10 {
        seq![digit_char(n)]
    } else {
        decimal(n / 10).push(digit_char(n % 10))
    }
}

/// Append the decimal representation of `n`.
fn push_decimal(out: &mut String, n: u64)
    ensures
        final(out)@ == old(out)@ + decimal(n as nat),
    decreases n,
{
    if n >= 10 {
        push_decimal(out, n / 10);
    }
    let d: u8 = (n % 10) as u8;
    push_char(out, (48u8 + d) as char);
    proof {
        if n >= 10 {
            assert(decimal(n as nat) == decimal((n / 10) as nat).push(digit_char((n % 10) as nat)));
        }
    }
    assert(out@ =~= old(out)@ + decimal(n as nat));
}

/// The log file name for a command's base name `stem`: `<stem>.log`, or
/// `<stem>-<suffix>.log` for a positive suffix.
pub open spec fn log_name(stem: Seq<char>, suffix: nat) -> Seq<char> {
    if suffix == 0 {
        stem + ".log"@
    } else {
        stem + "-"@ + decimal(suffix) + ".log"@
    }
}

/// The candidate log file name with the given suffix (zero for none).
pub fn log_file_name(stem: &str, suffix: u64) -> (r: String)
    ensures
        r@ == log_name(stem@, suffix as nat),
{
    let mut r = String::from_str(stem);
    if suffix > 0 {
        r.append("-");
        push_decimal(&mut r, suffix);
    }
    r.append(".log");
    assert(r@ =~= log_name(stem@, suffix as nat));
    r
}

/// Choose the output file path: none (empty) with `null`; the given
/// `output` if it is not empty; otherwise a name derived from the command's
/// base name `b`: `<b>.log` with `force`, else the first of `<b>.log`,
/// `<b>-1.log`, `<b>-2.log`, ... where nothing exists when it is looked at.
/// `None` when the command has no base name. What exists is up to the disk
/// at the moment of each look, so the contract names the candidates alone.
pub fn choose_output(null: bool, output: &str, force: bool, command: &str) -> (r: Option<String>)
    ensures
        null ==> (r matches Some(p) && p@ == Seq::<char>::empty()),
        !null && output@.len() > 0 ==> (r matches Some(p) && p@ == output@),
        !null && output@.len() == 0 && base_name_of(command@) is None ==> r is None,
        !null && output@.len() == 0 && base_name_of(command@) is Some && force ==> (r matches Some(p)
            && p@ == log_name(base_name_of(command@)->0, 0)),
        !null && output@.len() == 0 && base_name_of(command@) is Some && !force ==> (r matches Some(p)
            && exists|k: nat| p@ == #[trigger] log_name(base_name_of(command@)->0, k)),
{
    if null {
        return Some(String::new());
    }
    if !output.is_empty() {
        return Some(String::from_str(output));
    }
    let stem = match file_name(command) {
        Some(s) => s,
        None => return None,
    };
    let mut out_path = log_file_name(stem.as_str(), 0);
    assert(out_path@ == log_name(stem@, 0));
    if !force {
        let mut suffix: u64 = 1;
        while path_exists(out_path.as_str()) && suffix < u64::MAX
            invariant
                base_name_of(command@) == Some(stem@),
                exists|k: nat| out_path@ == #[trigger] log_name(stem@, k),
            decreases u64::MAX - suffix,
        {
            out_path = log_file_name(stem.as_str(), suffix);
            assert(out_path@ == log_name(stem@, suffix as nat));
            suffix = suffix + 1;
        }
        let ghost k = choose|k: nat| out_path@ == #[trigger] log_name(stem@, k);
        assert(out_path@ == log_name(base_name_of(command@)->0, k));
    }
    Some(out_path)
}

} // verus!
