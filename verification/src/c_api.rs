//! What the TensorRT-RTX C API answers, turned into the crate's results.
//!
//! Each function here takes what a call of the C API handed back, as plain
//! values, and decides what the binding returns: the error of a failed call,
//! the bytes of a C string, the text of a returned name, the list of
//! dimensions of a tensor.

use vstd::prelude::*;
use vstd::string::StringExecFns;
use vstd::utf8::{decode_utf8, encode_utf8, valid_utf8};

use crate::decimal::{format_i32, signed_decimal};
use crate::error::{Error, Result};

verus! {

broadcast use vstd::utf8::encode_utf8_valid_utf8, vstd::utf8::encode_utf8_decode_utf8;

/// A call of the C API that can fail, with what its failure message names.
pub enum Failure {
    /// Reading a tensor's name.
    TensorName,
    /// Reading a tensor's dimensions.
    TensorDimensions,
    /// Adding a network input of this name.
    AddInput(String),
    /// Marking a tensor as a network output.
    MarkOutput,
    /// Looking up the network input at this index.
    GetInput(i32),
    /// Looking up the network output at this index.
    GetOutput(i32),
    /// Adding an activation layer.
    AddActivation,
    /// Adding an elementwise layer.
    AddElementwise,
    /// Adding a pooling layer.
    AddPooling,
    /// Adding a shuffle layer.
    AddShuffle,
    /// Adding a matrix multiply layer.
    AddMatrixMultiply,
    /// Using a builder whose handle is null.
    InvalidBuilder,
    /// Using a builder configuration whose handle is null.
    InvalidBuilderConfig,
    /// Creating a builder.
    CreateBuilder,
    /// Creating a network definition.
    CreateNetwork,
    /// Creating a builder configuration.
    CreateConfig,
    /// Building a serialized engine.
    BuildSerializedNetwork,
}

/// The message of the error that a failed call reports.
pub open spec fn failure_message(f: Failure) -> Seq<char> {
    match f {
        Failure::TensorName => "Failed to get tensor name"@,
        Failure::TensorDimensions => "Failed to get tensor dimensions"@,
        Failure::AddInput(name) => "Failed to add input: "@ + name@,
        Failure::MarkOutput => "Failed to mark tensor as output"@,
        Failure::GetInput(index) => "Failed to get input at index "@ + signed_decimal(index as int),
        Failure::GetOutput(index) => "Failed to get output at index "@ + signed_decimal(index as int),
        Failure::AddActivation => "Failed to add activation layer"@,
        Failure::AddElementwise => "Failed to add elementwise layer"@,
        Failure::AddPooling => "Failed to add pooling layer"@,
        Failure::AddShuffle => "Failed to add shuffle layer"@,
        Failure::AddMatrixMultiply => "Failed to add matrix multiply layer"@,
        Failure::InvalidBuilder => "Invalid builder"@,
        Failure::InvalidBuilderConfig => "Invalid builder config"@,
        Failure::CreateBuilder => "Failed to create builder"@,
        Failure::CreateNetwork => "Failed to create network"@,
        Failure::CreateConfig => "Failed to create builder config"@,
        Failure::BuildSerializedNetwork => "Failed to build serialized network"@,
    }
}

/// The error that a failed call reports.
pub fn failure_error(f: &Failure) -> (e: Error)
    ensures
        e.is_runtime_with(failure_message(*f)),
{
    match f {
        Failure::TensorName => Error::runtime("Failed to get tensor name"),
        Failure::TensorDimensions => Error::runtime("Failed to get tensor dimensions"),
        Failure::AddInput(name) => {
            let mut msg = String::from_str("Failed to add input: ");
            msg.append(name.as_str());
            Error::Runtime(msg)
        },
        Failure::MarkOutput => Error::runtime("Failed to mark tensor as output"),
        Failure::GetInput(index) => {
            let mut msg = String::from_str("Failed to get input at index ");
            let digits = format_i32(*index);
            msg.append(digits.as_str());
            Error::Runtime(msg)
        },
        Failure::GetOutput(index) => {
            let mut msg = String::from_str("Failed to get output at index ");
            let digits = format_i32(*index);
            msg.append(digits.as_str());
            Error::Runtime(msg)
        },
        Failure::AddActivation => Error::runtime("Failed to add activation layer"),
        Failure::AddElementwise => Error::runtime("Failed to add elementwise layer"),
        Failure::AddPooling => Error::runtime("Failed to add pooling layer"),
        Failure::AddShuffle => Error::runtime("Failed to add shuffle layer"),
        Failure::AddMatrixMultiply => Error::runtime("Failed to add matrix multiply layer"),
        Failure::InvalidBuilder => Error::runtime("Invalid builder"),
        Failure::InvalidBuilderConfig => Error::runtime("Invalid builder config"),
        Failure::CreateBuilder => Error::runtime("Failed to create builder"),
        Failure::CreateNetwork => Error::runtime("Failed to create network"),
        Failure::CreateConfig => Error::runtime("Failed to create builder config"),
        Failure::BuildSerializedNetwork => Error::runtime("Failed to build serialized network"),
    }
}

/// The result of a call that either succeeded or failed as `f` says.
pub fn check_outcome(succeeded: bool, f: &Failure) -> (r: Result<()>)
    ensures
        succeeded <==> r is Ok,
        r matches Err(e) ==> e.is_runtime_with(failure_message(*f)),
{
    if succeeded {
        Ok(())
    } else {
        Err(failure_error(f))
    }
}


/// The bytes of the C string that carries `name`: its UTF-8 encoding and a
/// terminating NUL.
pub open spec fn c_string_bytes(name: Seq<char>) -> Seq<u8> {
    encode_utf8(name).push(0u8)
}

/// Whether `p` is the offset of the first NUL byte in `bytes`.
pub open spec fn is_first_nul(bytes: Seq<u8>, p: int) -> bool {
    &&& 0 <= p < bytes.len()
    &&& bytes[p] == 0
    &&& forall|i: int| 0 <= i < p ==> bytes[i] != 0
}

/// Encodes `name` as a C string. A name that holds a NUL byte cannot be
/// carried by a C string: the error gives the offset of the first one.
pub fn to_c_string(name: &str) -> (r: Result<Vec<u8>>)
    ensures
        r is Ok <==> !encode_utf8(name@).contains(0u8),
        r matches Ok(v) ==> v@ == c_string_bytes(name@),
        r matches Ok(v) ==> v@ == encode_utf8(name@).push(0u8),
        r matches Ok(v) ==> is_first_nul(v@, v@.len() - 1),
        r matches Err(e) ==> (e matches Error::InteriorNul(p) && is_first_nul(encode_utf8(name@), p as int)),
{
    let bytes = name.as_bytes();
    let mut out: Vec<u8> = Vec::new();
    let mut i: usize = 0;
    while i < bytes.len()
        invariant
            bytes@ == encode_utf8(name@),
            i <= bytes.len(),
            out@ == bytes@.take(i as int),
            forall|j: int| 0 <= j < i ==> bytes@[j] != 0,
        decreases bytes.len() - i,
    {
        if bytes[i] == 0 {
            return Err(Error::InteriorNul(i));
        }
        out.push(bytes[i]);
        i = i + 1;
        assert(out@ == bytes@.take(i as int));
    }
    assert(bytes@.take(i as int) == bytes@);
    assert(!bytes@.contains(0u8)) by {
        if bytes@.contains(0u8) {
            let k = choose|k: int| 0 <= k < bytes@.len() && bytes@[k] == 0u8;
            assert(bytes@[k] != 0);
        }
    }
    out.push(0u8);
    proof {
        c_string_ends_at_terminator(name@);
    }
    Ok(out)
}

/// Reads `bytes` as UTF-8 text.
///
/// Calls `std::str::from_utf8`, which accepts exactly the byte sequences that
/// are valid UTF-8 and then returns the text whose encoding they are.
#[verifier::external_body]
fn str_from_utf8(bytes: &[u8]) -> (r: Option<&str>)
    ensures
        r is Some <==> valid_utf8(bytes@),
        r matches Some(s) ==> encode_utf8(s@) == bytes@,
{
    std::str::from_utf8(bytes).ok()
}

/// The name that the C API handed back: `raw` holds the bytes of the C string
/// before its terminating NUL, or is `None` where the API answered with a null
/// pointer.
pub fn tensor_name_from_c(raw: Option<&[u8]>) -> (r: Result<String>)
    ensures
        raw is None ==> (r matches Err(e) && e.is_runtime_with(failure_message(Failure::TensorName))),
        raw matches Some(b) ==> (r is Ok <==> valid_utf8(b@)),
        raw matches Some(b) ==> (r matches Ok(s) ==> s@ == decode_utf8(b@)),
        raw matches Some(b) ==> (r matches Err(e) ==> e is InvalidUtf8),
{
    match raw {
        None => Err(failure_error(&Failure::TensorName)),
        Some(bytes) => match str_from_utf8(bytes) {
            Some(s) => {
                let name = s.to_owned();
                proof {
                    vstd::utf8::encode_utf8_decode_utf8(s@);
                }
                Ok(name)
            },
            None => Err(Error::InvalidUtf8),
        },
    }
}

/// The dimensions of a tensor that the C API reported: `found` is false where
/// the API answered with a null pointer; otherwise the first `nb_dims` entries
/// of `dims` are the dimensions.
pub fn dimensions_from_c(found: bool, dims: &[i32], nb_dims: i32) -> (r: Result<Vec<i32>>)
    requires
        found ==> 0 <= nb_dims <= dims@.len(),
    ensures
        found <==> r is Ok,
        r matches Ok(v) ==> v@ == dims@.take(nb_dims as int),
        r matches Err(e) ==> e.is_runtime_with(failure_message(Failure::TensorDimensions)),
{
    if !found {
        return Err(failure_error(&Failure::TensorDimensions));
    }
    let n = nb_dims as usize;
    let mut out: Vec<i32> = Vec::new();
    let mut i: usize = 0;
    while i < n
        invariant
            n == nb_dims as int,
            n <= dims@.len(),
            i <= n,
            out@ == dims@.take(i as int),
        decreases n - i,
    {
        out.push(dims[i]);
        i = i + 1;
        assert(out@ == dims@.take(i as int));
    }
    Ok(out)
}

/// The serialized engine that the C API built: `data` holds the bytes of the
/// buffer it handed back, or is `None` where it answered with a null pointer.
/// The result owns a copy of all those bytes.
pub fn engine_bytes_from_c(data: Option<&[u8]>) -> (r: Result<Vec<u8>>)
    ensures
        data is None <==> r is Err,
        r matches Err(e) ==> e.is_runtime_with(failure_message(Failure::BuildSerializedNetwork)),
        data matches Some(b) ==> (r matches Ok(v) && v@ == b@),
{
    match data {
        None => Err(failure_error(&Failure::BuildSerializedNetwork)),
        Some(bytes) => {
            let mut out: Vec<u8> = Vec::new();
            let mut i: usize = 0;
            while i < bytes.len()
                invariant
                    i <= bytes@.len(),
                    out@ == bytes@.take(i as int),
                decreases bytes.len() - i,
            {
                out.push(bytes[i]);
                i = i + 1;
                assert(out@ == bytes@.take(i as int));
            }
            assert(bytes@.take(i as int) == bytes@);
            Ok(out)
        },
    }
}

/// A C string carries exactly its name: its bytes are the name's UTF-8
/// encoding followed by one NUL, and for a name without a NUL byte that
/// terminating NUL is the first one, so the C API reads the whole name and
/// nothing past it.
pub proof fn c_string_ends_at_terminator(name: Seq<char>)
    ensures
        c_string_bytes(name).len() == encode_utf8(name).len() + 1,
        c_string_bytes(name).last() == 0u8,
        c_string_bytes(name).drop_last() == encode_utf8(name),
        !encode_utf8(name).contains(0u8) ==> is_first_nul(c_string_bytes(name), encode_utf8(name).len() as int),
{
    let b = encode_utf8(name);
    let c = c_string_bytes(name);
    assert(c.drop_last() =~= b);
    if !b.contains(0u8) {
        assert forall|i: int| 0 <= i < b.len() implies c[i] != 0 by {
            assert(c[i] == b[i]);
            if b[i] == 0 {
                assert(b.contains(0u8));
            }
        }
    }
}

/// A name that a C string can carry comes back unchanged when the C string
/// is read back: the bytes before the terminating NUL are valid UTF-8 and
/// decode to the name.
pub proof fn c_string_round_trip(name: Seq<char>)
    ensures
        valid_utf8(c_string_bytes(name).drop_last()),
        decode_utf8(c_string_bytes(name).drop_last()) == name,
{
    assert(c_string_bytes(name).drop_last() == encode_utf8(name));
}

} // verus!
