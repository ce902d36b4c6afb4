//! Fresh telemetry identifiers.
//!
//! The configuration rewrite replaces a fixed set of identifier fields
//! with freshly generated random values: a 64-character hexadecimal
//! identifier built from two version-4 identifiers with their hyphens
//! stripped, and the field-to-value assignment in which the machine
//! identifier is reused for the sqm field.

use vstd::prelude::*;
use vstd::string::StrSliceExecFns;
use vstd::string::StringExecFns;

verus! {

/// Lower-case hexadecimal digit.
pub open spec fn is_lower_hex(c: char) -> bool {
    (48 <= c as u32 && c as u32 <= 57) || (97 <= c as u32 && c as u32 <= 102)
}

/// The hyphenated rendering of a version-4 identifier: 36 characters,
/// lower-case hexadecimal except for hyphens at positions 8, 13, 18, 23.
pub open spec fn hyphenated_uuid(s: Seq<char>) -> bool {
    &&& s.len() == 36
    &&& forall|i: int|
        0 <= i < 36 ==> if i == 8 || i == 13 || i == 18 || i == 23 {
            s[i] == '-'
        } else {
            is_lower_hex(#[trigger] s[i])
        }
}

/// Relies on `uuid::Uuid::new_v4` and the crate's `Display` rendering: a
/// fresh version-4 identifier prints hyphenated, as 36 characters of
/// lower-case hexadecimal with hyphens at positions 8, 13, 18 and 23.
/// The value itself is random, so nothing further is promised.
#[verifier::external_body]
fn fresh_uuid_hyphenated() -> (r: String)
    ensures
        hyphenated_uuid(r@),
{
    uuid::Uuid::new_v4().to_string()
}

/// The 32 hexadecimal characters of a hyphenated identifier, in order,
/// with the four hyphens dropped.
fn strip_uuid_hyphens(s: &str) -> (r: String)
    requires
        hyphenated_uuid(s@),
    ensures
        r@ == s@.subrange(0, 8) + s@.subrange(9, 13) + s@.subrange(14, 18) + s@.subrange(19, 23)
            + s@.subrange(24, 36),
        r@.len() == 32,
        forall|i: int| 0 <= i < 32 ==> is_lower_hex(#[trigger] r@[i]),
{
    let r = s.substring_char(0, 8).to_owned().concat(s.substring_char(9, 13)).concat(
        s.substring_char(14, 18),
    ).concat(s.substring_char(19, 23)).concat(s.substring_char(24, 36));
    proof {
        assert forall|i: int| 0 <= i < 32 implies is_lower_hex(#[trigger] r@[i]) by {
            if i < 8 {
                assert(r@[i] == s@[i]);
            } else if i < 12 {
                assert(r@[i] == s@[i + 1]);
            } else if i < 16 {
                assert(r@[i] == s@[i + 2]);
            } else if i < 20 {
                assert(r@[i] == s@[i + 3]);
            } else {
                assert(r@[i] == s@[i + 4]);
            }
        }
    }
    r
}

/// Sixty-four freshly generated lower-case hexadecimal characters: two
/// fresh version-4 identifiers, stripped of their hyphens and joined.
pub fn generate_64_hex() -> (r: String)
    ensures
        r@.len() == 64,
        forall|i: int| 0 <= i < 64 ==> is_lower_hex(#[trigger] r@[i]),
{
    let first = fresh_uuid_hyphenated();
    let second = fresh_uuid_hyphenated();
    let stripped_first = strip_uuid_hyphens(first.as_str());
    let stripped_second = strip_uuid_hyphens(second.as_str());
    let ghost a = stripped_first@;
    let ghost b = stripped_second@;
    let r = stripped_first.concat(stripped_second.as_str());
    proof {
        assert forall|i: int| 0 <= i < 64 implies is_lower_hex(#[trigger] r@[i]) by {
            if i < 32 {
                assert(r@[i] == a[i]);
            } else {
                assert(r@[i] == b[i - 32]);
            }
        }
    }
    r
}

/// The configuration fields the rewrite replaces, with their fresh
/// values, in rewrite order.  The machine identifier is deliberately
/// reused for the sqm field.
pub fn telemetry_updates(machine_id: &String, mac_machine_id: &String, dev_device_id: &String) -> (r:
    Vec<(String, String)>)
    ensures
        r.deep_view().len() == 4,
        r.deep_view()[0] == ("telemetry.macMachineId"@, mac_machine_id@),
        r.deep_view()[1] == ("telemetry.sqmId"@, machine_id@),
        r.deep_view()[2] == ("telemetry.machineId"@, machine_id@),
        r.deep_view()[3] == ("telemetry.devDeviceId"@, dev_device_id@),
{
    let mut r: Vec<(String, String)> = Vec::new();
    r.push(("telemetry.macMachineId".to_owned(), mac_machine_id.clone()));
    r.push(("telemetry.sqmId".to_owned(), machine_id.clone()));
    r.push(("telemetry.machineId".to_owned(), machine_id.clone()));
    r.push(("telemetry.devDeviceId".to_owned(), dev_device_id.clone()));
    proof {
        assert(r.deep_view()[0] == ("telemetry.macMachineId"@, mac_machine_id@));
        assert(r.deep_view()[1] == ("telemetry.sqmId"@, machine_id@));
        assert(r.deep_view()[2] == ("telemetry.machineId"@, machine_id@));
        assert(r.deep_view()[3] == ("telemetry.devDeviceId"@, dev_device_id@));
    }
    r
}

} // verus!
