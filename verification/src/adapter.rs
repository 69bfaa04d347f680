//! What the renderer reads off an adapter and a device.

use vstd::prelude::*;
use vstd::slice::slice_subrange;
use crate::error::RendererError;
use crate::error::S_OK;
use crate::window::utf16;

verus! {

/// The feature of a device that its options describe.
pub const FEATURE_D3D12_OPTIONS: u32 = 0;

/// The feature of a device that its architecture describes.
pub const FEATURE_ARCHITECTURE: u32 = 1;

/// The text that a run of UTF-16 code units stands for, with a replacement
/// character in place of each code unit that belongs to no character.
pub uninterp spec fn utf16_lossy(units: Seq<u16>) -> Seq<char>;

/// `String::from_utf16_lossy` of the standard library: the text that the
/// code units stand for, where what is not UTF-16 is replaced. Two things
/// are claimed of it: the text depends on the code units alone, and code
/// units that are the UTF-16 of a text decode to that text.
#[verifier::external_body]
fn decode_utf16_lossy(units: &[u16]) -> (text: String)
    ensures
        text@ == utf16_lossy(units@),
        forall|encoded: Seq<char>| #[trigger] utf16(encoded) == units@ ==> text@ == encoded,
{
    String::from_utf16_lossy(units)
}

/// The number of code units before the first zero; all of them where there
/// is no zero.
pub open spec fn name_length(description: Seq<u16>) -> nat
    decreases description.len(),
{
    if description.len() == 0 || description[0] == 0 {
        0
    } else {
        1 + name_length(description.skip(1))
    }
}

/// The name length is the position of the first zero.
pub proof fn lemma_name_length(description: Seq<u16>)
    ensures
        name_length(description) <= description.len(),
        name_length(description) < description.len() ==> description[name_length(
            description,
        ) as int] == 0,
        forall|earlier: int| 0 <= earlier < name_length(description) ==> description[earlier] != 0,
    decreases description.len(),
{
    if description.len() > 0 && description[0] != 0 {
        let rest = description.skip(1);
        lemma_name_length(rest);
        assert forall|earlier: int| 0 <= earlier < name_length(description) implies description[earlier]
            != 0 by {
            if earlier > 0 {
                assert(description[earlier] == rest[earlier - 1]);
            }
        }
        if name_length(rest) < rest.len() {
            assert(description[name_length(description) as int] == rest[name_length(rest) as int]);
        }
    }
}

proof fn lemma_name_length_found(description: Seq<u16>, length: int)
    requires
        0 <= length <= description.len(),
        forall|earlier: int| 0 <= earlier < length ==> description[earlier] != 0,
        length < description.len() ==> description[length] == 0,
    ensures
        name_length(description) == length,
    decreases description.len(),
{
    if description.len() > 0 && description[0] != 0 {
        let rest = description.skip(1);
        assert forall|earlier: int| 0 <= earlier < length - 1 implies rest[earlier] != 0 by {
            assert(rest[earlier] == description[earlier + 1]);
        }
        if length - 1 < rest.len() {
            assert(rest[length - 1] == description[length]);
        }
        lemma_name_length_found(rest, length - 1);
    }
}

/// The name of an adapter: the text of its description up to the first
/// zero. Where the description up to there is the UTF-16 of a text, the name
/// is that text.
pub fn get_adapter_name(description: &[u16]) -> (name: String)
    ensures
        name@ == utf16_lossy(description@.take(name_length(description@) as int)),
        forall|encoded: Seq<char>| #[trigger]
            utf16(encoded) == description@.take(name_length(description@) as int) ==> name@
                == encoded,
{
    let mut length: usize = 0;
    while length < description.len() && description[length] != 0
        invariant
            length <= description@.len(),
            forall|earlier: int| 0 <= earlier < length ==> description@[earlier] != 0,
        decreases description@.len() - length,
    {
        length = length + 1;
    }
    proof {
        lemma_name_length_found(description@, length as int);
    }
    let name = slice_subrange(description, 0, length);
    decode_utf16_lossy(name)
}

/// Judges the result code with which a device answered the query for one of
/// its features: only the plain success code will do.
pub fn get_additional_device_data(code: i32) -> (result: Result<(), RendererError>)
    ensures
        code == S_OK ==> result == Ok::<(), RendererError>(()),
        code != S_OK ==> result == Err::<(), RendererError>(
            RendererError::DeviceCreationFailed { code },
        ),
{
    if code == S_OK {
        Ok(())
    } else {
        Err(RendererError::DeviceCreationFailed { code })
    }
}

} // verus!
