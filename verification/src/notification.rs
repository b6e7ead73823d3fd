use vstd::prelude::*;
use vstd::string::*;

verus! {

/// A release version, `major.minor.patch`.
#[derive(Clone, Copy, Debug, PartialEq, Eq, Structural)]
pub struct SemanticVersion {
    pub major: usize,
    pub minor: usize,
    pub patch: usize,
}

/// The character of a decimal digit.
pub open spec fn digit_char(d: nat) -> char {
    (48 + d) as char
}

/// The decimal numeral of `n`, without leading zeros.
pub open spec fn decimal(n: nat) -> Seq<char>
    decreases n,
{
    if n < 10 {
        seq![digit_char(n)]
    } else {
        decimal(n / 10).push(digit_char(n % 10))
    }
}

/// A version as text: its three numbers joined by dots.
pub open spec fn version_text(v: SemanticVersion) -> Seq<char> {
    decimal(v.major as nat) + "."@ + decimal(v.minor as nat) + "."@ + decimal(v.patch as nat)
}

/// The heading of the notice shown after an update.
pub open spec fn update_title(app_name: Seq<char>, v: SemanticVersion) -> Seq<char> {
    "Updated to "@ + app_name + " "@ + version_text(v)
}

fn digit_str(d: usize) -> (s: &'static str)
    requires
        d < 10,
    ensures
        s@ == seq![digit_char(d as nat)],
{
    let s = match d {
        0 => "0",
        1 => "1",
        2 => "2",
        3 => "3",
        4 => "4",
        5 => "5",
        6 => "6",
        7 => "7",
        8 => "8",
        _ => "9",
    };
    proof {
        reveal_strlit("0");
        reveal_strlit("1");
        reveal_strlit("2");
        reveal_strlit("3");
        reveal_strlit("4");
        reveal_strlit("5");
        reveal_strlit("6");
        reveal_strlit("7");
        reveal_strlit("8");
        reveal_strlit("9");
        assert(s@ =~= seq![digit_char(d as nat)]);
    }
    s
}

/// Appends the decimal numeral of `n` to `out`.
pub fn push_decimal(out: &mut String, n: usize)
    ensures
        final(out)@ == old(out)@ + decimal(n as nat),
    decreases n,
{
    if n >= 10 {
        push_decimal(out, n / 10);
        out.append(digit_str(n % 10));
        assert(final(out)@ =~= old(out)@ + decimal(n as nat)) by {
            assert(decimal(n as nat) == decimal((n / 10) as nat).push(digit_char((n % 10) as nat)));
        }
    } else {
        out.append(digit_str(n));
    }
}

/// Appends `major.minor.patch` to `out`.
pub fn push_version(out: &mut String, v: SemanticVersion)
    ensures
        final(out)@ == old(out)@ + version_text(v),
{
    push_decimal(out, v.major);
    out.append(".");
    push_decimal(out, v.minor);
    out.append(".");
    push_decimal(out, v.patch);
    assert(final(out)@ =~= old(out)@ + version_text(v));
}

/// The notice shown once the application has updated itself.
pub struct UpdateNotification {
    version: SemanticVersion,
}

impl UpdateNotification {
    pub fn new(version: SemanticVersion) -> (n: Self)
        ensures
            n.version_spec() == version,
    {
        UpdateNotification { version }
    }

    pub closed spec fn version_spec(&self) -> SemanticVersion {
        self.version
    }

    pub fn version(&self) -> (v: SemanticVersion)
        ensures
            v == self.version_spec(),
    {
        self.version
    }

    /// "Updated to {app_name} {version}".
    pub fn title(&self, app_name: &str) -> (s: String)
        ensures
            s@ == update_title(app_name@, self.version_spec()),
    {
        let mut s = "Updated to ".to_string();
        s.append(app_name);
        s.append(" ");
        push_version(&mut s, self.version);
        assert(s@ =~= update_title(app_name@, self.version_spec()));
        s
    }
}


/// The number a string of decimal digits stands for.
pub open spec fn numeral_value(s: Seq<char>) -> int
    decreases s.len(),
{
    if s.len() == 0 {
        0
    } else {
        numeral_value(s.drop_last()) * 10 + (s.last() as int - 48)
    }
}

pub open spec fn is_digit(c: char) -> bool {
    '0' <= c && c <= '9'
}

/// `decimal(n)` is the numeral of `n`: one or more digits, no leading zero
/// unless `n` is zero, and it reads back as `n`.
pub proof fn law_decimal_is_numeral(n: nat)
    ensures
        decimal(n).len() >= 1,
        forall|i: int| 0 <= i < decimal(n).len() ==> is_digit(#[trigger] decimal(n)[i]),
        numeral_value(decimal(n)) == n,
        n >= 10 ==> decimal(n)[0] != '0',
        n < 10 ==> decimal(n).len() == 1,
    decreases n,
{
    assert(digit_char(n % 10) as int == 48 + n % 10);
    assert(numeral_value(seq![digit_char(n % 10)]) == n % 10) by {
        let one = seq![digit_char(n % 10)];
        assert(one.drop_last() =~= Seq::<char>::empty());
        assert(numeral_value(one.drop_last()) == 0);
        assert(one.last() == digit_char(n % 10));
    }
    if n >= 10 {
        law_decimal_is_numeral(n / 10);
        let d = decimal(n);
        assert(d.drop_last() =~= decimal(n / 10));
        assert(d.last() == digit_char(n % 10));
        assert(d[0] == decimal(n / 10)[0]);
        assert forall|i: int| 0 <= i < d.len() implies is_digit(#[trigger] d[i]) by {
            if i < d.len() - 1 {
                assert(d[i] == decimal(n / 10)[i]);
            }
        }
    }
}

/// The title reads "Updated to ", the application's name, a space, and the
/// major, minor and patch numbers as full decimal numerals joined by dots.
pub proof fn law_title_names_full_version(app_name: Seq<char>, v: SemanticVersion)
    ensures
        ({
            let (major, minor, patch) = (decimal(v.major as nat), decimal(v.minor as nat), decimal(v.patch as nat));
            &&& update_title(app_name, v) == "Updated to "@ + app_name + " "@ + major + "."@ + minor + "."@ + patch
            &&& numeral_value(major) == v.major
            &&& numeral_value(minor) == v.minor
            &&& numeral_value(patch) == v.patch
        }),
{
    law_decimal_is_numeral(v.major as nat);
    law_decimal_is_numeral(v.minor as nat);
    law_decimal_is_numeral(v.patch as nat);
    let (major, minor, patch) = (decimal(v.major as nat), decimal(v.minor as nat), decimal(v.patch as nat));
    assert(update_title(app_name, v) =~= "Updated to "@ + app_name + " "@ + major + "."@ + minor + "."@ + patch);
}

} // verus!
