use vstd::prelude::*;
use vstd::string::StrSliceExecFns;
use vstd::utf8::encode_utf8;
use crate::errors::ErrorCodes;
use crate::ledger::MetadataAccount;
use crate::pubkey::{pubkey_at, read_pubkey, Pubkey};

verus! {

/// `metadata` names `pk` as its confirmed collection, or as a confirmed creator.
pub open spec fn in_collection(metadata: &MetadataAccount, pk: &Pubkey) -> bool {
    ||| metadata.collection matches Some(c) && c.verified && c.key == *pk
    ||| metadata.creators matches Some(creators) && exists|i: int|
        0 <= i < creators@.len() && (#[trigger] creators@[i]).verified && creators@[i].address
            == *pk
}

/// Accepts a token's metadata as a member of the collection `pk`, and refuses any
/// other with `MetadataMismatch`.
#[verifier::loop_isolation(false)]
pub fn metadata_is_collection(metadata: &MetadataAccount, pk: &Pubkey) -> (r: Result<
    (),
    ErrorCodes,
>)
    ensures
        r == if in_collection(metadata, pk) {
            Ok::<(), ErrorCodes>(())
        } else {
            Err::<(), ErrorCodes>(ErrorCodes::MetadataMismatch)
        },
{
    match &metadata.collection {
        Some(c) => {
            if c.verified && c.key == *pk {
                return Ok(());
            }
        },
        None => {},
    }
    match &metadata.creators {
        Some(creators) => {
            let mut i: usize = 0;
            while i < creators.len()
                invariant
                    i <= creators@.len(),
                    forall|j: int|
                        0 <= j < i ==> !((#[trigger] creators@[j]).verified && creators@[j].address
                            == *pk),
                decreases creators@.len() - i,
            {
                if creators[i].verified && creators[i].address == *pk {
                    return Ok(());
                }
                i += 1;
            }
        },
        None => {},
    }
    Err(ErrorCodes::MetadataMismatch)
}

/// The size of a string in its stored form: four bytes of length, then its bytes.
pub fn string_len_borsh(text: &String) -> (r: usize)
    requires
        4 + encode_utf8(text@).len() <= usize::MAX,
    ensures
        r == 4 + encode_utf8(text@).len(),
{
    4 + text.as_str().as_bytes().len()
}

/// The size of an optional string in its stored form: one byte that says whether
/// it is there, then the string.
pub fn string_option_len(text: &Option<String>) -> (r: usize)
    requires
        text matches Some(s) ==> 5 + encode_utf8(s@).len() <= usize::MAX,
    ensures
        r == 1 + match *text {
            Some(s) => 4 + encode_utf8(s@).len(),
            None => 0,
        },
{
    match text {
        Some(s) => 1 + string_len_borsh(s),
        None => 1,
    }
}

/// Whether `char::is_alphanumeric` holds of `c`: the character is a letter or a
/// number of some script.
pub uninterp spec fn char_is_alphanumeric(c: char) -> bool;

/// Asks `char::is_alphanumeric` of std whether `c` is a letter or a number. What
/// it answers depends on `c` alone and is called `char_is_alphanumeric(c)`;
/// nothing more is claimed of it.
#[verifier::external_body]
fn is_alphanumeric(c: char) -> (r: bool)
    ensures
        r == char_is_alphanumeric(c),
{
    c.is_alphanumeric()
}

/// One of the four ranges of punctuation and symbols below U+007F.
pub open spec fn spec_is_ascii_punctuation(c: char) -> bool {
    let v = c as u32;
    0x21 <= v <= 0x2F || 0x3A <= v <= 0x40 || 0x5B <= v <= 0x60 || 0x7B <= v <= 0x7E
}

/// Whether `c` is punctuation or a symbol below U+007F.
#[verifier::when_used_as_spec(spec_is_ascii_punctuation)]
pub fn is_ascii_punctuation(c: char) -> (r: bool)
    ensures
        r == spec_is_ascii_punctuation(c),
{
    let v: u32 = c as u32;
    (0x21 <= v && v <= 0x2F) || (0x3A <= v && v <= 0x40) || (0x5B <= v && v <= 0x60) || (0x7B <= v
        && v <= 0x7E)
}

/// A control code: below U+0020, or from U+007F to U+009F.
pub open spec fn spec_is_control(c: char) -> bool {
    let v = c as u32;
    v <= 0x1F || 0x7F <= v <= 0x9F
}

/// Whether `c` is a control code.
#[verifier::when_used_as_spec(spec_is_control)]
pub fn is_control(c: char) -> (r: bool)
    ensures
        r == spec_is_control(c),
{
    let v: u32 = c as u32;
    v <= 0x1F || (0x7F <= v && v <= 0x9F)
}

/// The symbols a name may hold besides letters, numbers and single spaces.
pub open spec fn is_listed_symbol(c: char) -> bool {
    c == '.' || c == ',' || c == '!' || c == '?' || c == ':' || c == ';' || c == '(' || c == ')'
        || c == '[' || c == ']' || c == '{' || c == '}' || c == '\'' || c == '"' || c == '-' || c
        == '_' || c == '@' || c == '#' || c == '$' || c == '%' || c == '&' || c == '*' || c == '+'
        || c == '=' || c == '<' || c == '>' || c == '/' || c == '\\' || c == '|' || c == '~' || c
        == '^'
}

/// A name may hold `c`: a letter, a number or a listed symbol.
pub open spec fn spec_is_allowed_char(c: char, alphanumeric: bool) -> bool {
    alphanumeric || is_listed_symbol(c)
}

/// Whether a name may hold `c`, given whether `c` is a letter or a number.
#[verifier::when_used_as_spec(spec_is_allowed_char)]
pub fn is_allowed_char(c: char, alphanumeric: bool) -> (r: bool)
    ensures
        r == spec_is_allowed_char(c, alphanumeric),
{
    alphanumeric || c == '.' || c == ',' || c == '!' || c == '?' || c == ':' || c == ';' || c == '('
        || c == ')' || c == '[' || c == ']' || c == '{' || c == '}' || c == '\'' || c == '"' || c
        == '-' || c == '_' || c == '@' || c == '#' || c == '$' || c == '%' || c == '&' || c == '*'
        || c == '+' || c == '=' || c == '<' || c == '>' || c == '/' || c == '\\' || c == '|' || c
        == '~' || c == '^'
}

/// What is wrong with the character at `i`, if anything: a space that follows a
/// space, or a character that is not a space and that a name may not hold.
pub open spec fn char_fault(chars: Seq<(char, bool)>, i: int) -> Option<ErrorCodes> {
    let c = chars[i].0;
    if c == ' ' {
        if i > 0 && chars[i - 1].0 == ' ' {
            Some(ErrorCodes::ConsecutiveWhitespace)
        } else {
            None
        }
    } else if c as u32 > 0xFFFF || spec_is_control(c) || !spec_is_allowed_char(c, chars[i].1) {
        Some(ErrorCodes::InvalidCharacter)
    } else {
        None
    }
}

/// The fault of the first faulty character at or after `i`.
pub open spec fn first_fault(chars: Seq<(char, bool)>, i: int) -> Option<ErrorCodes>
    decreases chars.len() - i,
{
    if i < 0 || i >= chars.len() {
        None
    } else {
        match char_fault(chars, i) {
            Some(e) => Some(e),
            None => first_fault(chars, i + 1),
        }
    }
}

/// The verdict on a name of `byte_len` bytes whose characters are `chars`, each
/// paired with whether it is a letter or a number. The empty name passes. Any
/// other must have 4 to 32 bytes, begin with neither punctuation nor a space, not
/// end with a space, and hold no faulty character; the first of these that fails
/// decides the error.
pub open spec fn validate_classified_spec(chars: Seq<(char, bool)>, byte_len: int) -> Result<
    (),
    ErrorCodes,
> {
    if chars.len() == 0 {
        Ok(())
    } else if byte_len > 32 {
        Err(ErrorCodes::StringTooLong)
    } else if byte_len < 4 {
        Err(ErrorCodes::StringTooShort)
    } else if spec_is_ascii_punctuation(chars[0].0) {
        Err(ErrorCodes::StartsWithPunctuation)
    } else if chars[0].0 == ' ' {
        Err(ErrorCodes::StartsWithWhitespace)
    } else if chars.last().0 == ' ' {
        Err(ErrorCodes::EndsWithWhitespace)
    } else {
        match first_fault(chars, 0) {
            Some(e) => Err(e),
            None => Ok(()),
        }
    }
}

/// Judges a name from its characters, each paired with whether it is a letter or
/// a number, and its length in bytes.
#[verifier::loop_isolation(false)]
pub fn validate_classified(chars: &Vec<(char, bool)>, byte_len: usize) -> (r: Result<
    (),
    ErrorCodes,
>)
    ensures
        r == validate_classified_spec(chars@, byte_len as int),
{
    let n: usize = chars.len();
    if n == 0 {
        return Ok(());
    }
    if byte_len > 32 {
        return Err(ErrorCodes::StringTooLong);
    }
    if byte_len < 4 {
        return Err(ErrorCodes::StringTooShort);
    }
    if is_ascii_punctuation(chars[0].0) {
        return Err(ErrorCodes::StartsWithPunctuation);
    }
    if chars[0].0 == ' ' {
        return Err(ErrorCodes::StartsWithWhitespace);
    }
    if chars[n - 1].0 == ' ' {
        return Err(ErrorCodes::EndsWithWhitespace);
    }
    let mut prev_was_space: bool = false;
    let mut i: usize = 0;
    while i < n
        invariant
            i <= n,
            n == chars@.len(),
            prev_was_space == (i > 0 && chars@[i - 1].0 == ' '),
            first_fault(chars@, 0) == first_fault(chars@, i as int),
        decreases n - i,
    {
        let c: char = chars[i].0;
        let code: u32 = c as u32;
        if c == ' ' {
            if prev_was_space {
                return Err(ErrorCodes::ConsecutiveWhitespace);
            }
            prev_was_space = true;
        } else {
            prev_was_space = false;
            if code > 0xFFFF || is_control(c) || !is_allowed_char(c, chars[i].1) {
                return Err(ErrorCodes::InvalidCharacter);
            }
        }
        i += 1;
    }
    Ok(())
}

/// The characters of `s`, each paired with whether it is a letter or a number.
pub open spec fn classified(s: Seq<char>) -> Seq<(char, bool)> {
    Seq::new(s.len(), |i: int| (s[i], char_is_alphanumeric(s[i])))
}

/// The verdict on the name `s`.
pub open spec fn validate_string_spec(s: Seq<char>) -> Result<(), ErrorCodes> {
    validate_classified_spec(classified(s), encode_utf8(s).len() as int)
}

/// Judges a name: `Ok` for the empty name and for one that is well formed, else
/// the error of the first rule it breaks.
pub fn validate_string(s: &str) -> (r: Result<(), ErrorCodes>)
    ensures
        r == validate_string_spec(s@),
{
    if s.is_empty() {
        return Ok(());
    }
    let byte_len: usize = s.as_bytes().len();
    if byte_len > 32 {
        return Err(ErrorCodes::StringTooLong);
    }
    if byte_len < 4 {
        return Err(ErrorCodes::StringTooShort);
    }
    let n: usize = s.unicode_len();
    let mut chars: Vec<(char, bool)> = Vec::new();
    let mut i: usize = 0;
    while i < n
        invariant
            i <= n,
            n == s@.len(),
            chars@ == classified(s@).subrange(0, i as int),
        decreases n - i,
    {
        let c: char = s.get_char(i);
        chars.push((c, is_alphanumeric(c)));
        i += 1;
    }
    assert(chars@ =~= classified(s@));
    validate_classified(&chars, byte_len)
}

/// The kinds of record in the alternate asset registry.
#[derive(Clone, Copy, Debug, PartialEq, Eq, Structural)]
pub enum Key {
    Uninitialized,
    AssetV1,
    HashedAssetV1,
    PluginHeaderV1,
    PluginRegistryV1,
    CollectionV1,
}

impl Key {
    /// The kind that the tag `val` stands for: tags 0 to 5 are in use.
    pub open spec fn spec_from_u8(val: u8) -> Option<Key> {
        match val {
            0 => Some(Key::Uninitialized),
            1 => Some(Key::AssetV1),
            2 => Some(Key::HashedAssetV1),
            3 => Some(Key::PluginHeaderV1),
            4 => Some(Key::PluginRegistryV1),
            5 => Some(Key::CollectionV1),
            _ => None,
        }
    }

    /// The kind that the tag `val` stands for.
    #[verifier::when_used_as_spec(spec_from_u8)]
    pub fn from_u8(val: u8) -> (r: Option<Key>)
        ensures
            r == Self::spec_from_u8(val),
    {
        match val {
            0 => Some(Key::Uninitialized),
            1 => Some(Key::AssetV1),
            2 => Some(Key::HashedAssetV1),
            3 => Some(Key::PluginHeaderV1),
            4 => Some(Key::PluginRegistryV1),
            5 => Some(Key::CollectionV1),
            _ => None,
        }
    }
}

/// Who may change an asset.
#[derive(Clone, Copy, Debug, PartialEq, Eq)]
pub enum UpdateAuthority {
    /// Nobody.
    Absent,
    Address(Pubkey),
    Collection(Pubkey),
}

/// The head of an asset record: its kind, its owner, and who may change it.
#[derive(Clone, Copy, Debug, PartialEq, Eq)]
pub struct SimplifiedAssetV1 {
    pub key: Key,
    pub owner: Pubkey,
    pub update_authority: UpdateAuthority,
}

impl SimplifiedAssetV1 {
    /// The asset that `data` describes: one byte of kind, which must say asset, 32
    /// bytes of owner, and one byte that says who may change it, followed by 32
    /// bytes of key unless that is nobody.
    pub open spec fn parse(data: Seq<u8>) -> Option<SimplifiedAssetV1> {
        if data.len() < 34 || data[0] != 1 {
            None
        } else if data[33] == 0 {
            Some(
                SimplifiedAssetV1 {
                    key: Key::AssetV1,
                    owner: pubkey_at(data, 1),
                    update_authority: UpdateAuthority::Absent,
                },
            )
        } else if (data[33] == 1 || data[33] == 2) && data.len() >= 66 {
            Some(
                SimplifiedAssetV1 {
                    key: Key::AssetV1,
                    owner: pubkey_at(data, 1),
                    update_authority: if data[33] == 1 {
                        UpdateAuthority::Address(pubkey_at(data, 34))
                    } else {
                        UpdateAuthority::Collection(pubkey_at(data, 34))
                    },
                },
            )
        } else {
            None
        }
    }

    /// Reads the head of an asset record from the record's bytes, and refuses
    /// bytes that hold none with `AccountDidNotDeserialize`.
    pub fn from_account_info(data: &[u8]) -> (r: Result<SimplifiedAssetV1, ErrorCodes>)
        ensures
            r == match Self::parse(data@) {
                Some(a) => Ok::<SimplifiedAssetV1, ErrorCodes>(a),
                None => Err::<SimplifiedAssetV1, ErrorCodes>(ErrorCodes::AccountDidNotDeserialize),
            },
    {
        if data.len() < 34 {
            return Err(ErrorCodes::AccountDidNotDeserialize);
        }
        let key: Key = match Key::from_u8(data[0]) {
            Some(k) => k,
            None => {
                return Err(ErrorCodes::AccountDidNotDeserialize);
            },
        };
        match key {
            Key::AssetV1 => {},
            _ => {
                return Err(ErrorCodes::AccountDidNotDeserialize);
            },
        }
        let owner: Pubkey = read_pubkey(data, 1);
        let tag: u8 = data[33];
        let update_authority: UpdateAuthority = if tag == 0 {
            UpdateAuthority::Absent
        } else if tag == 1 || tag == 2 {
            if data.len() < 66 {
                return Err(ErrorCodes::AccountDidNotDeserialize);
            }
            let pubkey: Pubkey = read_pubkey(data, 34);
            if tag == 1 {
                UpdateAuthority::Address(pubkey)
            } else {
                UpdateAuthority::Collection(pubkey)
            }
        } else {
            return Err(ErrorCodes::AccountDidNotDeserialize);
        };
        Ok(SimplifiedAssetV1 { key, owner, update_authority })
    }
}

} // verus!
