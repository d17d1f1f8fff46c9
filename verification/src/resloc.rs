//! Resource locations: `namespace:path` names for blocks and other
//! resources.

use vstd::prelude::*;
use vstd::string::*;

verus! {

/// A resource location.
#[derive(Debug, Clone)]
pub struct ResLoc {
    pub namespace: String,
    pub path: String,
}

/// Why a resource location is not valid.
#[derive(Debug, Clone, Copy, PartialEq, Eq, Structural)]
pub enum ResLocError {
    InvalidNamespace,
    InvalidPath,
}

/// Whether a byte may stand in a namespace: a lower-case letter, a digit,
/// `_`, `-` or `.`.
pub open spec fn namespace_byte(b: u8) -> bool {
    (0x61 <= b <= 0x7a) || (0x30 <= b <= 0x39) || b == 0x5f || b == 0x2d || b == 0x2e
}

/// Whether a byte may stand in a path: what may stand in a namespace, or
/// `/`.
pub open spec fn path_byte(b: u8) -> bool {
    namespace_byte(b) || b == 0x2f
}

/// Whether UTF-8 bytes spell a valid namespace: at least one byte, and
/// nothing but namespace bytes.
pub open spec fn valid_namespace(bytes: Seq<u8>) -> bool {
    bytes.len() > 0 && forall|i: int| 0 <= i < bytes.len() ==> namespace_byte(#[trigger] bytes[i])
}

/// Whether UTF-8 bytes spell a valid path: at least one byte, and nothing
/// but path bytes.
pub open spec fn valid_path(bytes: Seq<u8>) -> bool {
    bytes.len() > 0 && forall|i: int| 0 <= i < bytes.len() ==> path_byte(#[trigger] bytes[i])
}

/// What validation finds for a namespace and a path: the namespace is
/// looked at first.
pub open spec fn validate_parts(namespace: Seq<char>, path: Seq<char>) -> Result<
    (),
    ResLocError,
> {
    if !valid_namespace(namespace.spec_bytes_of()) {
        Err(ResLocError::InvalidNamespace)
    } else if !valid_path(path.spec_bytes_of()) {
        Err(ResLocError::InvalidPath)
    } else {
        Ok(())
    }
}

fn is_namespace_byte(b: u8) -> (r: bool)
    ensures
        r == namespace_byte(b),
{
    (0x61 <= b && b <= 0x7a) || (0x30 <= b && b <= 0x39) || b == 0x5f || b == 0x2d || b == 0x2e
}

impl ResLoc {
    /// What validation finds.
    pub open spec fn spec_validate(&self) -> Result<(), ResLocError> {
        validate_parts(self.namespace@, self.path@)
    }

    /// A resource location from its parts, unchecked.
    pub fn new(namespace: &str, path: &str) -> (r: ResLoc)
        ensures
            r.namespace@ == namespace@,
            r.path@ == path@,
    {
        ResLoc { namespace: String::from_str(namespace), path: String::from_str(path) }
    }

    /// A resource location from parts that it takes over, unchecked.
    pub fn new_owned(namespace: String, path: String) -> (r: ResLoc)
        ensures
            r.namespace == namespace,
            r.path == path,
    {
        ResLoc { namespace, path }
    }

    /// A resource location from its parts, if they are valid.
    pub fn new_checked(namespace: &str, path: &str) -> (r: Result<ResLoc, ResLocError>)
        ensures
            match r {
                Ok(loc) => loc.namespace@ == namespace@ && loc.path@ == path@
                    && loc.spec_validate() is Ok,
                Err(e) => Err::<(), ResLocError>(e) == validate_parts(namespace@, path@),
            },
    {
        let resloc = ResLoc::new(namespace, path);
        match resloc.validate() {
            Ok(()) => Ok(resloc),
            Err(e) => Err(e),
        }
    }

    /// A resource location from parts that it takes over, if they are
    /// valid.
    pub fn new_owned_checked(namespace: String, path: String) -> (r: Result<ResLoc, ResLocError>)
        ensures
            match r {
                Ok(loc) => loc.namespace == namespace && loc.path == path
                    && loc.spec_validate() is Ok,
                Err(e) => Err::<(), ResLocError>(e) == validate_parts(namespace@, path@),
            },
    {
        let resloc = ResLoc::new_owned(namespace, path);
        match resloc.validate() {
            Ok(()) => Ok(resloc),
            Err(e) => Err(e),
        }
    }

    /// The same resource location, owning its parts.
    pub fn into_owned(self) -> (r: ResLoc)
        ensures
            r == self,
    {
        self
    }

    /// Checks the namespace first, then the path.
    pub fn validate(&self) -> (r: Result<(), ResLocError>)
        ensures
            r == self.spec_validate(),
    {
        if !ResLoc::is_valid_namespace(self.namespace.as_str()) {
            return Err(ResLocError::InvalidNamespace);
        }
        if !ResLoc::is_valid_path(self.path.as_str()) {
            return Err(ResLocError::InvalidPath);
        }
        Ok(())
    }

    pub fn is_valid_namespace(value: &str) -> (b: bool)
        ensures
            b == valid_namespace(value@.spec_bytes_of()),
    {
        let bytes = value.as_bytes();
        if bytes.len() == 0 {
            return false;
        }
        let mut i: usize = 0;
        while i < bytes.len()
            invariant
                i <= bytes@.len(),
                bytes@ == value@.spec_bytes_of(),
                forall|j: int| 0 <= j < i ==> namespace_byte(#[trigger] bytes@[j]),
            decreases bytes@.len() - i,
        {
            if !is_namespace_byte(bytes[i]) {
                return false;
            }
            i = i + 1;
        }
        true
    }

    pub fn is_valid_path(value: &str) -> (b: bool)
        ensures
            b == valid_path(value@.spec_bytes_of()),
    {
        let bytes = value.as_bytes();
        if bytes.len() == 0 {
            return false;
        }
        let mut i: usize = 0;
        while i < bytes.len()
            invariant
                i <= bytes@.len(),
                bytes@ == value@.spec_bytes_of(),
                forall|j: int| 0 <= j < i ==> path_byte(#[trigger] bytes@[j]),
            decreases bytes@.len() - i,
        {
            if !(is_namespace_byte(bytes[i]) || bytes[i] == 0x2f) {
                return false;
            }
            i = i + 1;
        }
        true
    }
}

/// The UTF-8 bytes of a text.
pub trait SpecBytesOf {
    spec fn spec_bytes_of(self) -> Seq<u8>;
}

impl SpecBytesOf for Seq<char> {
    open spec fn spec_bytes_of(self) -> Seq<u8> {
        vstd::utf8::encode_utf8(self)
    }
}

/// The position of the first `:` from position `from` on, if there is
/// one.
pub open spec fn first_colon(bytes: Seq<u8>, from: int) -> Option<int>
    decreases bytes.len() - from,
{
    if from < 0 || from >= bytes.len() {
        None
    } else if bytes[from] == 0x3a {
        Some(from)
    } else {
        first_colon(bytes, from + 1)
    }
}

/// Text made of bytes below 128 only is UTF-8.
proof fn lemma_ascii_is_utf8(bytes: Seq<u8>)
    requires
        forall|i: int| 0 <= i < bytes.len() ==> #[trigger] bytes[i] < 0x80,
    ensures
        vstd::utf8::valid_utf8(bytes),
{
    assert(bytes.subrange(0, 0) =~= Seq::<u8>::empty());
    assert(vstd::utf8::partial_valid_utf8(bytes, 0));
    assert forall|i: int| 0 <= 0 <= i < bytes.len() <= bytes.len() implies #[trigger]
        vstd::utf8::is_leading_byte_width_1(bytes[i]) by {
        assert(bytes[i] < 0x80);
    }
    vstd::utf8::partial_valid_utf8_extend_ascii_block(bytes, 0, bytes.len() as int);
    assert(bytes.subrange(0, bytes.len() as int) =~= bytes);
}

impl ResLoc {
    /// The text `namespace:path`.
    pub fn to_string(&self) -> (text: String)
        ensures
            text@ == self.namespace@ + ":"@ + self.path@,
    {
        let mut text = self.namespace.clone();
        text.append(":");
        text.append(self.path.as_str());
        text
    }

    /// Checks bytes as a namespace.
    fn check_namespace(bytes: &[u8]) -> (b: bool)
        ensures
            b == valid_namespace(bytes@),
    {
        if bytes.len() == 0 {
            return false;
        }
        let mut i: usize = 0;
        while i < bytes.len()
            invariant
                i <= bytes@.len(),
                forall|j: int| 0 <= j < i ==> namespace_byte(#[trigger] bytes@[j]),
            decreases bytes@.len() - i,
        {
            if !is_namespace_byte(bytes[i]) {
                return false;
            }
            i = i + 1;
        }
        true
    }

    /// Checks bytes as a path.
    fn check_path(bytes: &[u8]) -> (b: bool)
        ensures
            b == valid_path(bytes@),
    {
        if bytes.len() == 0 {
            return false;
        }
        let mut i: usize = 0;
        while i < bytes.len()
            invariant
                i <= bytes@.len(),
                forall|j: int| 0 <= j < i ==> path_byte(#[trigger] bytes@[j]),
            decreases bytes@.len() - i,
        {
            if !(is_namespace_byte(bytes[i]) || bytes[i] == 0x2f) {
                return false;
            }
            i = i + 1;
        }
        true
    }

    /// Reads `namespace:path`, or `path` alone for the namespace
    /// `minecraft`: the text is cut at its first `:`, and both parts must
    /// be valid.
    pub fn try_from(s: &str) -> (r: Result<ResLoc, ResLocError>)
        ensures
            match first_colon(s@.spec_bytes_of(), 0) {
                None => match r {
                    Ok(loc) => loc.namespace@ == crate::MINECRAFT@ && loc.path@ == s@
                        && loc.spec_validate() is Ok,
                    Err(e) => Err::<(), ResLocError>(e) == validate_parts(crate::MINECRAFT@, s@),
                },
                Some(i) => {
                    let namespace = s@.spec_bytes_of().take(i);
                    let path = s@.spec_bytes_of().skip(i + 1);
                    match r {
                        Ok(loc) => loc.namespace@.spec_bytes_of() == namespace
                            && loc.path@.spec_bytes_of() == path && valid_namespace(namespace)
                            && valid_path(path),
                        Err(e) => e == (if !valid_namespace(namespace) {
                            ResLocError::InvalidNamespace
                        } else {
                            ResLocError::InvalidPath
                        }) && !(valid_namespace(namespace) && valid_path(path)),
                    }
                },
            },
    {
        let bytes = s.as_bytes();
        let mut at: usize = 0;
        while at < bytes.len() && bytes[at] != 0x3a
            invariant
                at <= bytes@.len(),
                bytes@ == s@.spec_bytes_of(),
                first_colon(bytes@, 0) == first_colon(bytes@, at as int),
            decreases bytes@.len() - at,
        {
            at = at + 1;
        }
        if at == bytes.len() {
            return ResLoc::new_checked(crate::MINECRAFT, s);
        }
        let head = vstd::slice::slice_subrange(bytes, 0, at);
        let tail = vstd::slice::slice_subrange(bytes, at + 1, bytes.len());
        assert(head@ =~= bytes@.take(at as int));
        assert(tail@ =~= bytes@.skip(at + 1));
        if !ResLoc::check_namespace(head) {
            return Err(ResLocError::InvalidNamespace);
        }
        if !ResLoc::check_path(tail) {
            return Err(ResLocError::InvalidPath);
        }
        proof {
            lemma_ascii_is_utf8(head@);
            lemma_ascii_is_utf8(tail@);
            vstd::utf8::decode_utf8_encode_utf8(head@);
            vstd::utf8::decode_utf8_encode_utf8(tail@);
        }
        let namespace = crate::network::reader::string_from_utf8(vstd::slice::slice_to_vec(head));
        let path = crate::network::reader::string_from_utf8(vstd::slice::slice_to_vec(tail));
        match (namespace, path) {
            (Some(namespace), Some(path)) => Ok(ResLoc { namespace, path }),
            _ => Err(ResLocError::InvalidNamespace),
        }
    }
}

} // verus!
