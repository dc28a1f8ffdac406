//! Members as listed and exported, and the texts that identify members in
//! the audit log.
use vstd::prelude::*;
use vstd::string::*;
use crate::text::{replace_all, replace_text};

verus! {

/// Sixteen to the power `n`.
pub open spec fn pow16(n: nat) -> nat
    decreases n,
{
    if n == 0 { 1 } else { 16 * pow16((n - 1) as nat) }
}

/// The lower-case hexadecimal digit of `d`, for `0 <= d < 16`.
pub open spec fn hex_digit(d: int) -> char {
    if d < 10 { (48 + d) as char } else { (87 + d) as char }
}

/// The `k`-th of the 32 hexadecimal digits of a 128-bit id, the most
/// significant first.
pub open spec fn id_nibble(id: u128, k: int) -> int {
    ((id as nat) / pow16((31 - k) as nat)) as int % 16
}

/// The character at position `i` of the hyphenated form of an id: 32
/// lower-case hexadecimal digits in groups of 8, 4, 4, 4 and 12, separated
/// by hyphens at positions 8, 13, 18 and 23.
pub open spec fn id_text_char(id: u128, i: int) -> char {
    if i == 8 || i == 13 || i == 18 || i == 23 {
        '-'
    } else {
        let k = if i < 8 { i } else if i < 13 { i - 1 } else if i < 18 { i - 2 } else if i < 23 { i - 3 } else { i - 4 };
        hex_digit(id_nibble(id, k))
    }
}

/// The hyphenated lower-case text of a 128-bit id.
pub open spec fn id_text(id: u128) -> Seq<char> {
    Seq::new(36, |i: int| id_text_char(id, i))
}

/// Formats an id with `uuid::Uuid::from_u128(id).to_string()`, which
/// writes the id's 16 bytes, most significant first, as the hyphenated
/// lower-case hexadecimal form that `id_text` describes.
#[verifier::external_body]
fn uuid_to_text(id: u128) -> (r: String)
    ensures
        r@ == id_text(id),
{
    uuid::Uuid::from_u128(id).to_string()
}

/// `true` or `false`.
pub open spec fn bool_text_spec(b: bool) -> Seq<char> {
    if b { "true"@ } else { "false"@ }
}

pub fn bool_text(b: bool) -> (r: String)
    ensures
        r@ == bool_text_spec(b),
{
    if b { String::from_str("true") } else { String::from_str("false") }
}

/// A member together with the names of the roles it holds.
#[derive(Debug)]
pub struct MemberWithRoles {
    pub user_id: u128,
    pub email: String,
    pub first_name: String,
    pub last_name: String,
    pub full_name: Option<String>,
    pub home_municipality: String,
    pub has_accepted_policies: bool,
    /// The role names as the JSON array text that the query aggregates.
    pub role_names: String,
}

impl MemberWithRoles {
    /// The member as a row of the CSV export: id, first name, last name,
    /// full name (empty where there is none), home municipality, whether the
    /// policies were accepted, e-mail address, role names.
    pub fn to_csv_row(&self) -> (row: Vec<String>)
        ensures
            row@.len() == 8,
            row@[0]@ == id_text(self.user_id),
            row@[1]@ == self.first_name@,
            row@[2]@ == self.last_name@,
            row@[3]@ == (match self.full_name { Some(n) => n@, None => Seq::<char>::empty() }),
            row@[4]@ == self.home_municipality@,
            row@[5]@ == bool_text_spec(self.has_accepted_policies),
            row@[6]@ == self.email@,
            row@[7]@ == self.role_names@,
    {
        let full_name = match &self.full_name {
            Some(n) => n.clone(),
            None => String::new(),
        };
        let mut row: Vec<String> = Vec::new();
        row.push(uuid_to_text(self.user_id));
        row.push(self.first_name.clone());
        row.push(self.last_name.clone());
        row.push(full_name);
        row.push(self.home_municipality.clone());
        row.push(bool_text(self.has_accepted_policies));
        row.push(self.email.clone());
        row.push(self.role_names.clone());
        row
    }
}

/// How the audit log names a member, an application or another entity
/// identified by an id: the id's hyphenated text.
pub fn id_entity(id: u128) -> (r: String)
    ensures
        r@ == id_text(id),
{
    uuid_to_text(id)
}

/// How the audit log names a role membership: the member's id and the role
/// name, separated by a colon.
pub fn role_member_entity(user_id: u128, role_name: &str) -> (r: String)
    ensures
        r@ == id_text(user_id) + ":"@ + role_name@,
{
    uuid_to_text(user_id).concat(":").concat(role_name)
}

/// Whether a CSV field must be quoted: it holds a separator, a quote or a
/// line break.
pub open spec fn needs_quoting(s: Seq<char>) -> bool {
    exists|i: int| 0 <= i < s.len() && (s[i] == ',' || s[i] == '"' || s[i] == '\n' || s[i] == '\r')
}

/// A field as written into a CSV line: as it is, or, where it must be
/// quoted, in double quotes with every quote doubled.
pub open spec fn csv_field_spec(s: Seq<char>) -> Seq<char> {
    if needs_quoting(s) {
        "\""@ + replace_all(s, "\""@, "\"\""@) + "\""@
    } else {
        s
    }
}

/// The fields of a CSV line, each written as `csv_field_spec` says,
/// separated by commas.
pub open spec fn csv_line_spec(fields: Seq<Seq<char>>) -> Seq<char>
    decreases fields.len(),
{
    if fields.len() == 0 {
        Seq::empty()
    } else if fields.len() == 1 {
        csv_field_spec(fields[0])
    } else {
        csv_line_spec(fields.drop_last()) + ","@ + csv_field_spec(fields.last())
    }
}

fn needs_quoting_exec(s: &str) -> (b: bool)
    ensures
        b == needs_quoting(s@),
{
    let n = s.unicode_len();
    let mut i: usize = 0;
    while i < n
        invariant
            n == s@.len(),
            i <= n,
            forall|j: int| 0 <= j < i ==> !(s@[j] == ',' || s@[j] == '"' || s@[j] == '\n' || s@[j] == '\r'),
        decreases n - i,
    {
        let c = s.get_char(i);
        if c == ',' || c == '"' || c == '\n' || c == '\r' {
            return true;
        }
        i += 1;
    }
    false
}

pub fn csv_field(s: &str) -> (r: String)
    ensures
        r@ == csv_field_spec(s@),
{
    if needs_quoting_exec(s) {
        proof {
            reveal_strlit("\"");
        }
        let doubled = replace_text(s, "\"", "\"\"");
        String::from_str("\"").concat(doubled.as_str()).concat("\"")
    } else {
        String::from_str(s)
    }
}

/// The CSV line of a row of fields, without its line break.
pub fn csv_line(fields: &Vec<String>) -> (r: String)
    ensures
        r@ == csv_line_spec(fields.deep_view()),
{
    let mut r = String::new();
    let mut i: usize = 0;
    proof {
        assert(fields.deep_view().take(0) =~= Seq::<Seq<char>>::empty());
    }
    while i < fields.len()
        invariant
            i <= fields@.len(),
            r@ == csv_line_spec(fields.deep_view().take(i as int)),
        decreases fields.len() - i,
    {
        let f = csv_field(fields[i].as_str());
        proof {
            let t = fields.deep_view().take(i + 1);
            assert(t.drop_last() =~= fields.deep_view().take(i as int));
            assert(t.last() == fields@[i as int]@);
        }
        if i == 0 {
            r = f;
        } else {
            r = r.concat(",").concat(f.as_str());
        }
        i += 1;
    }
    proof {
        assert(fields.deep_view().take(fields@.len() as int) =~= fields.deep_view());
    }
    r
}

} // verus!
