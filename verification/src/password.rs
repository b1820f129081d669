//! Password records as a database keeps them: a bcrypt hash together with
//! its salt, and the check of a password against such a record.

use vstd::prelude::*;

verus! {

#[verifier::external_type_specification]
#[verifier::external_body]
pub struct ExBcryptError(bcrypt::BcryptError);

#[verifier::external_type_specification]
#[verifier::external_body]
pub struct ExDecodeError(base64::DecodeError);

/// The bcrypt version prefixes a hash can be written with.
#[derive(PartialEq, Eq, Structural, Clone, Copy)]
pub enum HashVersion {
    TwoA,
    TwoX,
    TwoY,
    TwoB,
}

/// The bcrypt cost that passwords are hashed with.
pub const BCRYPT_COST: u32 = 13;

/// The version prefix that password hashes are written with.
pub const BCRYPT_VERSION_PREFIX: HashVersion = HashVersion::TwoA;

/// A decimal digit.
pub open spec fn decimal_digit(d: u32) -> char {
    match d {
        0 => '0',
        1 => '1',
        2 => '2',
        3 => '3',
        4 => '4',
        5 => '5',
        6 => '6',
        7 => '7',
        8 => '8',
        _ => '9',
    }
}

/// How a version prefix is written in a hash text.
pub open spec fn version_text(version: HashVersion) -> Seq<char> {
    match version {
        HashVersion::TwoA => seq!['2', 'a'],
        HashVersion::TwoX => seq!['2', 'x'],
        HashVersion::TwoY => seq!['2', 'y'],
        HashVersion::TwoB => seq!['2', 'b'],
    }
}

/// The first seven characters of a bcrypt hash text of a cost below 100:
/// `$`, the version, `$`, the cost in two digits, `$`.
pub open spec fn hash_prefix(version: HashVersion, cost: u32) -> Seq<char> {
    seq!['$'] + version_text(version) + seq![
        '$',
        decimal_digit(cost / 10),
        decimal_digit(cost % 10),
        '$',
    ]
}

/// The form of a bcrypt hash text with the given version and cost: sixty
/// characters, the prefix, then the salt in bcrypt's base64 (22 characters,
/// decoding to the 16 bytes of `salt`), then the hash proper (31 characters).
pub open spec fn has_hash_form(text: Seq<char>, version: HashVersion, cost: u32, salt: Seq<u8>) -> bool {
    &&& text.len() == 60
    &&& text.subrange(0, 7) == hash_prefix(version, cost)
    &&& bcrypt_base64_decoded(text.subrange(7, 29)) == Some(salt)
}

/// The text of the bcrypt hash of `password` (its UTF-8 bytes) with the given
/// cost and 16-byte salt, written for `version`: what
/// `bcrypt::hash_with_salt(password, cost, salt)` formats to with
/// `HashParts::format_for_version(version)`.
pub uninterp spec fn bcrypt_hash_text(
    password: Seq<char>,
    cost: u32,
    salt: Seq<u8>,
    version: HashVersion,
) -> Seq<char>;

/// The bytes that `text` decodes to in base64 with bcrypt's alphabet and no
/// padding, or `None` where it is no such encoding.
pub uninterp spec fn bcrypt_base64_decoded(text: Seq<char>) -> Option<Seq<u8>>;

/// Hashes `password` with `bcrypt::hash_with_salt` and writes the result with
/// `HashParts::format_for_version`.
///
/// bcrypt refuses a cost outside `4..=31` (`CostNotAllowed`) and otherwise
/// always succeeds; the text is a function of the arguments alone (bcrypt
/// reads no state and draws no random number here). `format_for_version`
/// writes `$`, the version, `$`, the cost in two digits, `$`, the salt as
/// bcrypt's base64 engine encodes it (22 characters, which decode back to the
/// salt), and 23 bytes of the hash in the same base64 (31 characters).
#[verifier::external_body]
fn bcrypt_hash_with_salt(password: &str, cost: u32, salt: [u8; 16], version: HashVersion) -> (hashed:
    Result<String, bcrypt::BcryptError>)
    ensures
        hashed is Ok <==> 4 <= cost <= 31,
        hashed matches Ok(text) ==> text@ == bcrypt_hash_text(password@, cost, salt@, version),
        hashed matches Ok(text) ==> has_hash_form(text@, version, cost, salt@),
{
    let version = match version {
        HashVersion::TwoA => bcrypt::Version::TwoA,
        HashVersion::TwoX => bcrypt::Version::TwoX,
        HashVersion::TwoY => bcrypt::Version::TwoY,
        HashVersion::TwoB => bcrypt::Version::TwoB,
    };
    match bcrypt::hash_with_salt(password, cost, salt) {
        Ok(parts) => Ok(parts.format_for_version(version)),
        Err(e) => Err(e),
    }
}

/// Hashes `password` with `bcrypt::hash_with_result`, which draws a random
/// 16-byte salt, and returns the hash written with
/// `HashParts::format_for_version` together with `HashParts::get_salt`.
///
/// bcrypt hashes with the drawn salt exactly as `hash_with_salt` does, and
/// `get_salt` is that salt encoded with bcrypt's own base64 engine (bcrypt's
/// alphabet, no padding), which decodes back to it. The call fails where the
/// cost is outside `4..=31` or the operating system gives no random bytes;
/// which salt is drawn is left open. The hash text has the form that
/// `format_for_version` writes (see `bcrypt_hash_with_salt`), and the salt
/// text is the salt part of it.
#[verifier::external_body]
fn bcrypt_hash_with_random_salt(password: &str, cost: u32, version: HashVersion) -> (hashed:
    Result<(String, String), bcrypt::BcryptError>)
    ensures
        !(4 <= cost <= 31) ==> hashed is Err,
        hashed matches Ok((text, salt_text)) ==> exists|salt: Seq<u8>|
            salt.len() == 16 && text@ == #[trigger] bcrypt_hash_text(password@, cost, salt, version)
                && bcrypt_base64_decoded(salt_text@) == Some(salt) && has_hash_form(
                text@,
                version,
                cost,
                salt,
            ),
        hashed matches Ok((text, salt_text)) ==> salt_text@ == text@.subrange(7, 29),
{
    let version = match version {
        HashVersion::TwoA => bcrypt::Version::TwoA,
        HashVersion::TwoX => bcrypt::Version::TwoX,
        HashVersion::TwoY => bcrypt::Version::TwoY,
        HashVersion::TwoB => bcrypt::Version::TwoB,
    };
    match bcrypt::hash_with_result(password, cost) {
        Ok(parts) => Ok((parts.format_for_version(version), parts.get_salt())),
        Err(e) => Err(e),
    }
}

/// Decodes `text` with the base64 crate's `Engine::decode`, on an engine with
/// bcrypt's alphabet and no padding; the result is a function of `text`.
#[verifier::external_body]
fn bcrypt_base64_decode(text: &str) -> (decoded: Result<Vec<u8>, base64::DecodeError>)
    ensures
        decoded is Ok <==> bcrypt_base64_decoded(text@) is Some,
        decoded matches Ok(bytes) ==> bcrypt_base64_decoded(text@) == Some(bytes@),
{
    let engine = base64::engine::GeneralPurpose::new(
        &base64::alphabet::BCRYPT,
        base64::engine::general_purpose::NO_PAD,
    );
    base64::Engine::decode(&engine, text.as_bytes())
}

/// A password as a database keeps it: the bcrypt hash text and the salt it
/// was hashed with, in bcrypt's base64.
pub struct PasswordRecord {
    pub hash: String,
    pub salt: String,
}

/// `record` holds `password`, hashed with the library's cost and version
/// prefix under some 16-byte salt that the record's salt text encodes.
pub open spec fn is_record_of(hash: Seq<char>, salt: Seq<char>, password: Seq<char>) -> bool {
    exists|bytes: Seq<u8>|
        bytes.len() == 16 && bcrypt_base64_decoded(salt) == Some(bytes) && hash
            == #[trigger] bcrypt_hash_text(password, BCRYPT_COST, bytes, BCRYPT_VERSION_PREFIX)
}

/// Hashes a new password for storage, under a freshly drawn random salt.
///
/// The hash text is sixty characters starting `$2a$13$`, followed by the
/// salt text and then the hash proper. Fails only where the operating system
/// gives no random bytes.
pub fn hash_password_for_storage(password: &str) -> (record: Result<PasswordRecord, bcrypt::BcryptError>)
    ensures
        record matches Ok(r) ==> is_record_of(r.hash@, r.salt@, password@),
        record matches Ok(r) ==> r.hash@.len() == 60 && r.hash@.subrange(0, 7) == "$2a$13$"@
            && r.salt@ == r.hash@.subrange(7, 29),
{
    match bcrypt_hash_with_random_salt(password, BCRYPT_COST, BCRYPT_VERSION_PREFIX) {
        Ok((hash, salt)) => {
            proof {
                reveal_strlit("$2a$13$");
                let bytes = choose|bytes: Seq<u8>|
                    bytes.len() == 16 && hash@ == #[trigger] bcrypt_hash_text(
                        password@,
                        BCRYPT_COST,
                        bytes,
                        BCRYPT_VERSION_PREFIX,
                    ) && bcrypt_base64_decoded(salt@) == Some(bytes) && has_hash_form(
                        hash@,
                        BCRYPT_VERSION_PREFIX,
                        BCRYPT_COST,
                        bytes,
                    );
                assert(hash_prefix(BCRYPT_VERSION_PREFIX, BCRYPT_COST) =~= "$2a$13$"@);
            }
            Ok(PasswordRecord { hash, salt })
        },
        Err(e) => Err(e),
    }
}


/// A value of a column in a row that a database returned.
pub enum ColumnValue {
    Text(String),
    Boolean(bool),
    /// A value of any type other than text.
    Other,
}

/// The conditional insertion of a record took place, by the row a database
/// returned for it (`None`: no row): a conditional insertion is answered with
/// a row whose first value is the boolean `[applied]`.
pub open spec fn insertion_applied(row: Option<Seq<Option<ColumnValue>>>) -> bool {
    match row {
        Some(columns) => columns.len() > 0 && columns[0] matches Some(ColumnValue::Boolean(true)),
        None => false,
    }
}

/// The reading of a conditional insertion's reply rests on its first value
/// alone: a reply is taken as applied exactly when its first value is the
/// boolean true, whatever the values after it (a refused insertion is
/// answered with the row that stands, a new one with nulls); a reply without
/// values, or no reply, is not applied.
pub proof fn lemma_insertion_reply_first_value(
    first: Option<ColumnValue>,
    rest: Seq<Option<ColumnValue>>,
)
    ensures
        insertion_applied(Some(seq![first] + rest)) <==> first matches Some(
            ColumnValue::Boolean(true),
        ),
        !insertion_applied(Some(Seq::<Option<ColumnValue>>::empty())),
        !insertion_applied(None),
{
    assert((seq![first] + rest)[0] == first);
}

/// Whether a conditional insertion took place, by the row that the database
/// returned for it, or `None` where it returned no row.
pub fn insertion_was_applied(row: &Option<Vec<Option<ColumnValue>>>) -> (applied: bool)
    ensures
        applied == insertion_applied(row_view(*row)),
{
    match row {
        Some(columns) => {
            if columns.len() == 0 {
                return false;
            }
            match &columns[0] {
                Some(ColumnValue::Boolean(applied)) => *applied,
                _ => false,
            }
        },
        None => false,
    }
}

/// Why a stored password record could not be checked: the row that holds it
/// is malformed.
#[derive(PartialEq, Eq, Structural, Clone, Copy, Debug)]
pub enum StoredRecordError {
    /// The first value of the row is not text.
    HashNotText,
    /// The second value of the row is not text.
    SaltNotText,
    /// The salt is not base64 in bcrypt's alphabet.
    SaltNotBase64,
    /// The salt does not decode to 16 bytes; the number of bytes it decodes to.
    SaltWrongLength(usize),
}

/// The positions of the non-null values of a row, in order.
pub open spec fn present_positions(row: Seq<Option<ColumnValue>>) -> Seq<int>
    decreases row.len(),
{
    if row.len() == 0 {
        Seq::empty()
    } else if row.last() is Some {
        present_positions(row.drop_last()).push(row.len() - 1)
    } else {
        present_positions(row.drop_last())
    }
}

/// Each present position is that of a non-null value of the row.
pub proof fn lemma_present_positions(row: Seq<Option<ColumnValue>>)
    ensures
        forall|k: int|
            0 <= k < present_positions(row).len() ==> 0 <= #[trigger] present_positions(row)[k]
                < row.len() && row[present_positions(row)[k]] is Some,
    decreases row.len(),
{
    if row.len() > 0 {
        lemma_present_positions(row.drop_last());
    }
}

/// The text of a column value, if it is text.
pub open spec fn column_text(value: Option<ColumnValue>) -> Option<Seq<char>> {
    match value {
        Some(ColumnValue::Text(text)) => Some(text@),
        _ => None,
    }
}

/// The outcome of checking `password` against a stored row.
///
/// No row: the password is refused. A row whose non-null values are not
/// exactly two: refused. Otherwise the first value is the hash text and the
/// second the salt text; the password is accepted exactly when hashing it with
/// the decoded salt, the library's cost and version prefix gives the stored
/// hash text.
pub open spec fn stored_password_check(
    row: Option<Seq<Option<ColumnValue>>>,
    password: Seq<char>,
) -> Result<bool, StoredRecordError> {
    match row {
        None => Ok(false),
        Some(columns) => {
            let positions = present_positions(columns);
            if positions.len() != 2 {
                Ok(false)
            } else {
                match (column_text(columns[positions[0]]), column_text(columns[positions[1]])) {
                    (None, _) => Err(StoredRecordError::HashNotText),
                    (Some(_), None) => Err(StoredRecordError::SaltNotText),
                    (Some(hash), Some(salt)) => match bcrypt_base64_decoded(salt) {
                        None => Err(StoredRecordError::SaltNotBase64),
                        Some(bytes) => if bytes.len() != 16 {
                            Err(StoredRecordError::SaltWrongLength(bytes.len() as usize))
                        } else {
                            Ok(
                                bcrypt_hash_text(
                                    password,
                                    BCRYPT_COST,
                                    bytes,
                                    BCRYPT_VERSION_PREFIX,
                                ) == hash,
                            )
                        },
                    },
                }
            }
        },
    }
}

/// The view of an optional row.
pub open spec fn row_view(row: Option<Vec<Option<ColumnValue>>>) -> Option<Seq<Option<ColumnValue>>> {
    match row {
        Some(columns) => Some(columns@),
        None => None,
    }
}

/// The positions of the non-null values among `columns`.
fn present_positions_of(columns: &Vec<Option<ColumnValue>>) -> (positions: Vec<usize>)
    ensures
        positions@.len() == present_positions(columns@).len(),
        forall|k: int|
            0 <= k < positions@.len() ==> #[trigger] positions@[k] as int == present_positions(
                columns@,
            )[k],
{
    let mut positions: Vec<usize> = Vec::new();
    let mut i: usize = 0;
    while i < columns.len()
        invariant
            i <= columns@.len(),
            positions@.len() == present_positions(columns@.take(i as int)).len(),
            forall|k: int|
                0 <= k < positions@.len() ==> #[trigger] positions@[k] as int
                    == present_positions(columns@.take(i as int))[k],
        decreases columns@.len() - i,
    {
        assert(columns@.take(i + 1).drop_last() =~= columns@.take(i as int));
        if columns[i].is_some() {
            positions.push(i);
        }
        i = i + 1;
    }
    assert(columns@.take(columns@.len() as int) =~= columns@);
    positions
}

/// The text of a column value, if it is text.
fn text_of(value: &Option<ColumnValue>) -> (text: Option<&String>)
    ensures
        match text {
            Some(t) => column_text(*value) == Some(t@),
            None => column_text(*value) is None,
        },
{
    match value {
        Some(ColumnValue::Text(t)) => Some(t),
        _ => None,
    }
}

/// Checks `password` against the row that a database returned for a user,
/// or `None` where it returned no row.
///
/// The row holds the bcrypt hash text and then the salt text; null values
/// are skipped. A malformed record is an error.
pub fn check_stored_password(row: &Option<Vec<Option<ColumnValue>>>, password: &str) -> (checked:
    Result<bool, StoredRecordError>)
    ensures
        checked == stored_password_check(row_view(*row), password@),
{
    let columns = match row {
        None => return Ok(false),
        Some(columns) => columns,
    };
    let positions = present_positions_of(columns);
    proof {
        lemma_present_positions(columns@);
    }
    if positions.len() != 2 {
        // a password record is two values: its hash and its salt
        return Ok(false);
    }
    let hash = match text_of(&columns[positions[0]]) {
        Some(hash) => hash,
        None => return Err(StoredRecordError::HashNotText),
    };
    let salt_text = match text_of(&columns[positions[1]]) {
        Some(salt_text) => salt_text,
        None => return Err(StoredRecordError::SaltNotText),
    };
    let bytes = match bcrypt_base64_decode(salt_text.as_str()) {
        Ok(bytes) => bytes,
        Err(_) => return Err(StoredRecordError::SaltNotBase64),
    };
    if bytes.len() != 16 {
        return Err(StoredRecordError::SaltWrongLength(bytes.len()));
    }
    let salt: [u8; 16] = [
        bytes[0], bytes[1], bytes[2], bytes[3], bytes[4], bytes[5], bytes[6], bytes[7],
        bytes[8], bytes[9], bytes[10], bytes[11], bytes[12], bytes[13], bytes[14], bytes[15],
    ];
    assert(salt@ =~= bytes@);
    match bcrypt_hash_with_salt(password, BCRYPT_COST, salt, BCRYPT_VERSION_PREFIX) {
        Ok(computed) => Ok(computed == *hash),
        Err(_) => {
            // the library's cost is one that bcrypt accepts
            assert(false);
            Ok(false)
        },
    }
}


/// A password record made for a password accepts that password: stored as a
/// row of its hash text and then its salt text, the check of the same
/// password against it succeeds.
pub proof fn lemma_record_accepts_its_password(hash: String, salt: String, password: Seq<char>)
    requires
        is_record_of(hash@, salt@, password),
    ensures
        stored_password_check(
            Some(seq![Some(ColumnValue::Text(hash)), Some(ColumnValue::Text(salt))]),
            password,
        ) == Ok::<bool, StoredRecordError>(true),
{
    lemma_record_checks_without_error(hash, salt, password, password);
}

/// A password record made for some password is well formed: stored as a row
/// of its hash text and then its salt text, the check of any password
/// against it gives a verdict, never an error, and the verdict is whether
/// hashing that password under the record's salt gives the record's hash.
pub proof fn lemma_record_checks_without_error(
    hash: String,
    salt: String,
    password: Seq<char>,
    attempt: Seq<char>,
)
    requires
        is_record_of(hash@, salt@, password),
    ensures
        stored_password_check(
            Some(seq![Some(ColumnValue::Text(hash)), Some(ColumnValue::Text(salt))]),
            attempt,
        ) is Ok,
        exists|bytes: Seq<u8>|
            bytes.len() == 16 && bcrypt_base64_decoded(salt@) == Some(bytes) && stored_password_check(
                Some(seq![Some(ColumnValue::Text(hash)), Some(ColumnValue::Text(salt))]),
                attempt,
            ) == Ok::<bool, StoredRecordError>(
                #[trigger] bcrypt_hash_text(attempt, BCRYPT_COST, bytes, BCRYPT_VERSION_PREFIX)
                    == hash@,
            ),
{
    let row = seq![Some(ColumnValue::Text(hash)), Some(ColumnValue::Text(salt))];
    let first = row.drop_last();
    assert(first.drop_last() =~= Seq::<Option<ColumnValue>>::empty());
    assert(first.last() is Some);
    assert(present_positions(first.drop_last()) =~= Seq::<int>::empty());
    assert(present_positions(first) =~= seq![0int]);
    assert(present_positions(row) =~= seq![0int, 1int]);
    let bytes = choose|bytes: Seq<u8>|
        bytes.len() == 16 && bcrypt_base64_decoded(salt@) == Some(bytes) && hash@
            == #[trigger] bcrypt_hash_text(password, BCRYPT_COST, bytes, BCRYPT_VERSION_PREFIX);
    assert(column_text(row[0]) == Some(hash@));
    assert(column_text(row[1]) == Some(salt@));
    assert(stored_password_check(Some(row), attempt) == Ok::<bool, StoredRecordError>(
        bcrypt_hash_text(attempt, BCRYPT_COST, bytes, BCRYPT_VERSION_PREFIX) == hash@,
    ));
}

} // verus!
