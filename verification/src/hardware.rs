//! Which Miyoo device this is, and the firmware version it reports.

use vstd::prelude::*;
use vstd::string::*;

verus! {

/// The two Miyoo Mini models.
#[derive(Debug, Clone, Copy, PartialEq, Eq, Structural)]
pub enum MiyooDeviceModel {
    Miyoo283,
    Miyoo354,
}

impl MiyooDeviceModel {
    pub open spec fn spec_name(self) -> Seq<char> {
        match self {
            MiyooDeviceModel::Miyoo283 => "Miyoo Mini (MY283)"@,
            MiyooDeviceModel::Miyoo354 => "Miyoo Mini+ (MY354)"@,
        }
    }

    /// The marketing name of the model.
    pub fn to_string(&self) -> (s: String)
        ensures
            s@ == self.spec_name(),
    {
        match self {
            MiyooDeviceModel::Miyoo283 => String::from_str("Miyoo Mini (MY283)"),
            MiyooDeviceModel::Miyoo354 => String::from_str("Miyoo Mini+ (MY354)"),
        }
    }

    /// The program that turns the device off: the Mini restarts, the Mini+ powers off.
    pub fn shutdown_program(&self) -> (p: &'static str)
        ensures
            p@ == match *self {
                MiyooDeviceModel::Miyoo283 => "reboot"@,
                MiyooDeviceModel::Miyoo354 => "poweroff"@,
            },
    {
        match self {
            MiyooDeviceModel::Miyoo283 => "reboot",
            MiyooDeviceModel::Miyoo354 => "poweroff",
        }
    }

    /// Only the Mini+ has a volume the launcher sets.
    pub fn has_volume_control(&self) -> (v: bool)
        ensures
            v == (*self == MiyooDeviceModel::Miyoo354),
    {
        match self {
            MiyooDeviceModel::Miyoo283 => false,
            MiyooDeviceModel::Miyoo354 => true,
        }
    }

    /// Only the Mini+ has Wi-Fi.
    pub fn has_wifi(&self) -> (w: bool)
        ensures
            w == (*self == MiyooDeviceModel::Miyoo354),
    {
        match self {
            MiyooDeviceModel::Miyoo283 => false,
            MiyooDeviceModel::Miyoo354 => true,
        }
    }
}

/// The model, given whether the Mini+ power-chip test tool (`/customer/app/axp_test`) exists.
pub fn detect_model(axp_test_exists: bool) -> (m: MiyooDeviceModel)
    ensures
        m == (if axp_test_exists {
            MiyooDeviceModel::Miyoo354
        } else {
            MiyooDeviceModel::Miyoo283
        }),
{
    if axp_test_exists {
        MiyooDeviceModel::Miyoo354
    } else {
        MiyooDeviceModel::Miyoo283
    }
}

/// The key whose value is the firmware version.
pub open spec fn firmware_key() -> Seq<char> {
    seq!['m', 'i', 'y', 'o', 'o', '_', 'v', 'e', 'r', 's', 'i', 'o', 'n', '=']
}

/// The end of the line that starts at `i`: the index of the next newline, or the length.
pub open spec fn line_end(s: Seq<char>, i: int) -> int
    decreases s.len() - i,
{
    if i >= s.len() || s[i] == '\n' {
        i
    } else {
        line_end(s, i + 1)
    }
}

/// The end of the text of the line that starts at `i`: a carriage return just before the
/// newline is not part of it.
pub open spec fn content_end(s: Seq<char>, i: int) -> int {
    let e = line_end(s, i);
    if e < s.len() && e > i && s[e - 1] == '\r' {
        e - 1
    } else {
        e
    }
}

/// A line ends at the next newline, or at the end of the text.
pub proof fn lemma_line_end(s: Seq<char>, i: int)
    requires
        0 <= i <= s.len(),
    ensures
        i <= line_end(s, i) <= s.len(),
        line_end(s, i) < s.len() ==> s[line_end(s, i)] == '\n',
        forall|j: int| i <= j < line_end(s, i) ==> s[j] != '\n',
    decreases s.len() - i,
{
    if i < s.len() && s[i] != '\n' {
        lemma_line_end(s, i + 1);
    }
}

/// The value after `miyoo_version=` on the first line, from `start` on, that begins with
/// it; empty when no line does.
pub open spec fn firmware_from(s: Seq<char>, start: int) -> Seq<char>
    decreases s.len() + 1 - start,
{
    if start < 0 || start >= s.len() {
        seq![]
    } else {
        let e = line_end(s, start);
        let line = s.subrange(start, content_end(s, start));
        let k = firmware_key();
        if line.len() >= k.len() && line.subrange(0, k.len() as int) == k {
            line.subrange(k.len() as int, line.len() as int)
        } else {
            proof {
                lemma_line_end(s, start);
            }
            firmware_from(s, e + 1)
        }
    }
}

/// Whether the characters of `data` from `start` to `end` begin with `miyoo_version=`.
fn starts_with_key(data: &str, key: &str, start: usize, end: usize) -> (b: bool)
    requires
        start <= end <= data@.len(),
        key@ == firmware_key(),
    ensures
        b == (end - start >= firmware_key().len() && data@.subrange(
            start as int,
            start + firmware_key().len(),
        ) == firmware_key()),
{
    let klen = key.unicode_len();
    if end - start < klen {
        return false;
    }
    let mut k: usize = 0;
    while k < klen
        invariant
            klen == firmware_key().len(),
            key@ == firmware_key(),
            start + klen <= end <= data@.len(),
            k <= klen,
            forall|j: int| 0 <= j < k ==> data@[start + j] == firmware_key()[j],
        decreases klen - k,
    {
        if data.get_char(start + k) != key.get_char(k) {
            assert(data@.subrange(start as int, start + firmware_key().len())[k as int]
                != firmware_key()[k as int]);
            return false;
        }
        k = k + 1;
    }
    assert(data@.subrange(start as int, start + firmware_key().len()) =~= firmware_key());
    true
}

/// The firmware version in the output of `fw_printenv`: the value of `miyoo_version`, or an
/// empty string when no line sets it.
pub fn parse_firmware(data: &str) -> (v: &str)
    ensures
        v@ == firmware_from(data@, 0),
{
    let key = "miyoo_version=";
    proof {
        reveal_strlit("miyoo_version=");
        assert(key@ =~= firmware_key());
    }
    let n = data.unicode_len();
    let mut start: usize = 0;
    while start < n
        invariant
            n == data@.len(),
            start <= n,
            key@ == firmware_key(),
            firmware_from(data@, start as int) == firmware_from(data@, 0),
        ensures
            firmware_from(data@, 0) == Seq::<char>::empty(),
        decreases n - start,
    {
        let mut end = start;
        while end < n && data.get_char(end) != '\n'
            invariant
                n == data@.len(),
                start <= end <= n,
                forall|j: int| start <= j < end ==> data@[j] != '\n',
            decreases n - end,
        {
            end = end + 1;
        }
        proof {
            lemma_line_end(data@, start as int);
            lemma_line_end_is(data@, start as int, end as int);
        }
        let content = if end < n && end > start && data.get_char(end - 1) == '\r' {
            end - 1
        } else {
            end
        };
        let ghost s = data@;
        let ghost line = s.subrange(start as int, content as int);
        if starts_with_key(data, key, start, content) {
            assert(line.subrange(0, firmware_key().len() as int) =~= s.subrange(
                start as int,
                start + firmware_key().len(),
            ));
            let v = data.substring_char(start + key.unicode_len(), content);
            assert(v@ =~= line.subrange(firmware_key().len() as int, line.len() as int));
            return v;
        }
        proof {
            if line.len() >= firmware_key().len() {
                assert(line.subrange(0, firmware_key().len() as int) =~= s.subrange(
                    start as int,
                    start + firmware_key().len(),
                ));
            }
        }
        assert(firmware_from(data@, start as int) == firmware_from(data@, end + 1));
        if end >= n {
            assert(firmware_from(data@, end + 1) == Seq::<char>::empty());
            break;
        }
        start = end + 1;
    }
    let empty = data.substring_char(n, n);
    assert(empty@ =~= seq![]);
    empty
}

proof fn lemma_line_end_is(s: Seq<char>, i: int, e: int)
    requires
        0 <= i <= e <= s.len(),
        e == s.len() || s[e] == '\n',
        forall|j: int| i <= j < e ==> s[j] != '\n',
    ensures
        line_end(s, i) == e,
    decreases e - i,
{
    if i < e {
        lemma_line_end_is(s, i + 1, e);
    }
}

} // verus!
