//! The command address of a portable Unix socket.
use vstd::prelude::*;
use vstd::string::*;
use vstd::utf8::*;

use crate::provider::error::ProviderLaunchError;

verus! {

/// The longest socket path that every supported system accepts, in bytes.
pub const MAX_PORTABLE_UNIX_SOCKET_PATH_BYTES: usize = 103;

/// `std::str::from_utf8`: the text that the bytes encode, exactly where they
/// are valid UTF-8.
#[verifier::external_body]
fn text_of_utf8(bytes: &[u8]) -> (text: Option<&str>)
    ensures
        match text {
            Some(text) => valid_utf8(bytes@) && text@ == decode_utf8(bytes@),
            None => !valid_utf8(bytes@),
        },
{
    std::str::from_utf8(bytes).ok()
}

/// A control character: U+0000 to U+001F, and U+007F to U+009F.
pub open spec fn control(c: char) -> bool {
    (c as u32) < 0x20 || 0x7f <= (c as u32) <= 0x9f
}

fn is_control(c: char) -> (is: bool)
    ensures
        is == control(c),
{
    let code: u32 = c as u32;
    code < 0x20 || (0x7f <= code && code <= 0x9f)
}

/// A path that can be a socket address: absolute, short enough, and text
/// without control characters.
pub open spec fn addressable(path: Seq<u8>) -> bool {
    &&& 0 < path.len() <= MAX_PORTABLE_UNIX_SOCKET_PATH_BYTES
    &&& path[0] == 0x2f
    &&& valid_utf8(path)
    &&& forall|i: int|
        0 <= i < decode_utf8(path).len() ==> !control(#[trigger] decode_utf8(path)[i])
}

/// The address of a socket at a path.
pub open spec fn address_of(path: Seq<u8>) -> Seq<char> {
    "unix://"@ + decode_utf8(path)
}

/// A lexically valid, portable Unix socket command address.
///
/// It does not prove that a socket exists.
pub struct VerifiedProviderSocketAddress {
    address: String,
    path: Vec<u8>,
}

impl VerifiedProviderSocketAddress {
    pub closed spec fn address(&self) -> Seq<char> {
        self.address@
    }

    pub closed spec fn bytes(&self) -> Seq<u8> {
        self.path@
    }

    pub fn for_test(path: &[u8]) -> (verified: Result<Self, ProviderLaunchError>)
        ensures
            verified is Ok <==> addressable(path@),
            verified matches Ok(address) ==> address.bytes() == path@ && address.address()
                == address_of(path@),
            verified matches Err(error) ==> error == ProviderLaunchError::InvalidArgument,
    {
        Self::from_verified_path(path)
    }

    /// The address of a socket at this path.
    pub fn from_verified_path(path: &[u8]) -> (verified: Result<Self, ProviderLaunchError>)
        ensures
            verified is Ok <==> addressable(path@),
            verified matches Ok(address) ==> address.bytes() == path@ && address.address()
                == address_of(path@),
            verified matches Err(error) ==> error == ProviderLaunchError::InvalidArgument,
    {
        if path.len() == 0 || path[0] != 0x2f || path.len() > MAX_PORTABLE_UNIX_SOCKET_PATH_BYTES {
            return Err(ProviderLaunchError::InvalidArgument);
        }
        let rendered = match text_of_utf8(path) {
            Some(rendered) => rendered,
            None => {
                return Err(ProviderLaunchError::InvalidArgument);
            },
        };
        let length: usize = rendered.unicode_len();
        let mut i: usize = 0;
        while i < length
            invariant
                length == rendered@.len(),
                i <= length,
                forall|j: int| 0 <= j < i ==> !control(#[trigger] rendered@[j]),
                valid_utf8(path@),
                rendered@ == decode_utf8(path@),
            decreases length - i,
        {
            if is_control(rendered.get_char(i)) {
                return Err(ProviderLaunchError::InvalidArgument);
            }
            i += 1;
        }
        let mut address = "unix://".to_owned();
        address.append(rendered);
        let mut owned: Vec<u8> = Vec::new();
        owned.extend_from_slice(path);
        Ok(VerifiedProviderSocketAddress { address, path: owned })
    }

    pub fn as_str(&self) -> (address: &str)
        ensures
            address@ == self.address(),
    {
        self.address.as_str()
    }

    pub fn path(&self) -> (path: &[u8])
        ensures
            path@ == self.bytes(),
    {
        self.path.as_slice()
    }

    pub fn redacted(&self) -> (text: &'static str)
        ensures
            text@ == "VerifiedProviderSocketAddress(<redacted>)"@,
    {
        "VerifiedProviderSocketAddress(<redacted>)"
    }
}

/// A path can be an address exactly if it has from 1 to 103 bytes, begins with a
/// slash, and is text that holds no character below U+0020 and none from U+007F
/// to U+009F.
pub proof fn law_addressable_paths_are_short_absolute_text(path: Seq<u8>)
    ensures
        addressable(path) <==> {
            &&& 1 <= path.len() <= 103
            &&& path[0] == 47
            &&& valid_utf8(path)
            &&& forall|i: int|
                0 <= i < decode_utf8(path).len() ==> {
                    let code = (#[trigger] decode_utf8(path)[i]) as u32;
                    (32 <= code && code <= 126) || 160 <= code
                }
        },
{
    if addressable(path) {
        assert forall|i: int| 0 <= i < decode_utf8(path).len() implies {
            let code = (#[trigger] decode_utf8(path)[i]) as u32;
            (32 <= code && code <= 126) || 160 <= code
        } by {
            assert(!control(decode_utf8(path)[i]));
        }
    }
}

/// An address is the word unix, a colon and two slashes, and then the path, with
/// nothing left out and nothing added.
pub proof fn law_address_is_the_scheme_and_the_path(path: Seq<u8>)
    ensures
        address_of(path).len() == 7 + decode_utf8(path).len(),
        address_of(path).subrange(0, 7) == seq!['u', 'n', 'i', 'x', ':', '/', '/'],
        address_of(path).subrange(7, address_of(path).len() as int) == decode_utf8(path),
{
    reveal_strlit("unix://");
    assert(address_of(path).subrange(0, 7) =~= seq!['u', 'n', 'i', 'x', ':', '/', '/']);
    assert(address_of(path).subrange(7, address_of(path).len() as int) =~= decode_utf8(path));
}

} // verus!
