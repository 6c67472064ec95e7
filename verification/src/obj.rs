//! Value handles: the tagged words by which the interpreter passes any of its
//! values around.

use crate::error::{Error, OutOfRange};
use vstd::prelude::*;
use vstd::std_specs::convert::{FromSpecImpl, TryFromSpecImpl};

verus! {

/// A handle to any value of the interpreter. It is a plain word: copying it
/// copies no storage, and two copies of a list handle refer to one list.
#[derive(Clone, Copy, Debug, PartialEq, Eq, Structural)]
pub enum Obj {
    /// An integer that the handle holds itself.
    SmallInt(i32),
    /// The list object at this address of the heap.
    List(usize),
}

impl Obj {
    /// The integer that the handle holds, where it is a `u8`; a list is no
    /// integer, and an integer out of the range is not converted.
    pub open spec fn to_u8(self) -> Result<u8, Error> {
        match self {
            Obj::SmallInt(v) => if 0 <= v <= u8::MAX {
                Ok(v as u8)
            } else {
                Err(Error::ElementConversionFailure)
            },
            Obj::List(_) => Err(Error::TypeMismatch),
        }
    }

    /// The integer that the handle holds, where it is a `u16`; a list is no
    /// integer, and an integer out of the range is not converted.
    pub open spec fn to_u16(self) -> Result<u16, Error> {
        match self {
            Obj::SmallInt(v) => if 0 <= v <= u16::MAX {
                Ok(v as u16)
            } else {
                Err(Error::ElementConversionFailure)
            },
            Obj::List(_) => Err(Error::TypeMismatch),
        }
    }

    /// The handle that holds `v`, where a handle can hold it: the integers of
    /// a handle are those of `i32`.
    pub open spec fn of_u32(v: u32) -> Result<Obj, OutOfRange> {
        if v <= i32::MAX {
            Ok(Obj::SmallInt(v as i32))
        } else {
            Err(OutOfRange)
        }
    }

    /// A `u8` that was made a handle is read back as it was.
    pub proof fn lemma_u8_round_trip(v: u8)
        ensures
            Obj::SmallInt(v as i32).to_u8() == Ok::<u8, Error>(v),
    {
    }

    /// A `u16` that was made a handle is read back as it was.
    pub proof fn lemma_u16_round_trip(v: u16)
        ensures
            Obj::SmallInt(v as i32).to_u16() == Ok::<u16, Error>(v),
    {
    }

    /// Whether the handle carries the list tag.
    pub fn is_list(&self) -> (b: bool)
        ensures
            b == (*self is List),
    {
        match self {
            Obj::List(_) => true,
            Obj::SmallInt(_) => false,
        }
    }
}

impl From<u8> for Obj {
    fn from(v: u8) -> (obj: Obj)
        ensures
            obj == Obj::SmallInt(v as i32),
    {
        Obj::SmallInt(v as i32)
    }
}

impl FromSpecImpl<u8> for Obj {
    open spec fn obeys_from_spec() -> bool {
        true
    }

    open spec fn from_spec(v: u8) -> Obj {
        Obj::SmallInt(v as i32)
    }
}

impl From<u16> for Obj {
    fn from(v: u16) -> (obj: Obj)
        ensures
            obj == Obj::SmallInt(v as i32),
    {
        Obj::SmallInt(v as i32)
    }
}

impl FromSpecImpl<u16> for Obj {
    open spec fn obeys_from_spec() -> bool {
        true
    }

    open spec fn from_spec(v: u16) -> Obj {
        Obj::SmallInt(v as i32)
    }
}

impl TryFrom<u32> for Obj {
    type Error = OutOfRange;

    fn try_from(v: u32) -> (res: Result<Obj, OutOfRange>)
        ensures
            res == Obj::of_u32(v),
    {
        if v <= 0x7fff_ffff {
            Ok(Obj::SmallInt(v as i32))
        } else {
            Err(OutOfRange)
        }
    }
}

impl TryFromSpecImpl<u32> for Obj {
    open spec fn obeys_try_from_spec() -> bool {
        true
    }

    open spec fn try_from_spec(v: u32) -> Result<Obj, OutOfRange> {
        Obj::of_u32(v)
    }
}

impl TryFrom<Obj> for u8 {
    type Error = Error;

    fn try_from(obj: Obj) -> (res: Result<u8, Error>)
        ensures
            res == obj.to_u8(),
    {
        match obj {
            Obj::SmallInt(v) => {
                if 0 <= v && v <= 0xff {
                    Ok(v as u8)
                } else {
                    Err(Error::ElementConversionFailure)
                }
            },
            Obj::List(_) => Err(Error::TypeMismatch),
        }
    }
}

impl TryFromSpecImpl<Obj> for u8 {
    open spec fn obeys_try_from_spec() -> bool {
        true
    }

    open spec fn try_from_spec(obj: Obj) -> Result<u8, Error> {
        obj.to_u8()
    }
}

impl TryFrom<Obj> for u16 {
    type Error = Error;

    fn try_from(obj: Obj) -> (res: Result<u16, Error>)
        ensures
            res == obj.to_u16(),
    {
        match obj {
            Obj::SmallInt(v) => {
                if 0 <= v && v <= 0xffff {
                    Ok(v as u16)
                } else {
                    Err(Error::ElementConversionFailure)
                }
            },
            Obj::List(_) => Err(Error::TypeMismatch),
        }
    }
}

impl TryFromSpecImpl<Obj> for u16 {
    open spec fn obeys_try_from_spec() -> bool {
        true
    }

    open spec fn try_from_spec(obj: Obj) -> Result<u16, Error> {
        obj.to_u16()
    }
}

} // verus!
