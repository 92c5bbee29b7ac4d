use vstd::prelude::*;

verus! {

/// A value that can be turned into and rebuilt from serialized data.
pub trait Serializable<SerializedData>: Sized {
    fn serialize(&self) -> SerializedData;

    fn deserialize(data: &SerializedData) -> Self;
}

} // verus!
