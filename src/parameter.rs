//! Parameters of a function module: their descriptors, the capability checks
//! read off them, and the views they turn into.
use vstd::prelude::*;

use crate::error::RfcErrorInfo;
use crate::rc::HandleSlot;
use crate::structure::RfcStructure;
use crate::table::RfcTable;
use crate::uc::{field_text, text_of, to_string, to_string_truncate};

verus! {

/// The native type of a field or parameter.
#[derive(Clone, Copy, Debug, PartialEq, Eq, Structural)]
pub enum RfcType {
    Char,
    Date,
    Bcd,
    Time,
    Byte,
    Table,
    Num,
    Float,
    Int,
    Int2,
    Int1,
    Null,
    AbapObject,
    Structure,
    Decf16,
    Decf34,
    XmlData,
    AbapString,
    AbapXString,
    Int8,
    UtcLong,
    UtcSecond,
    UtcMinute,
    DtDay,
    DtWeek,
    DtMonth,
    TSecond,
    TMinute,
    CDay,
    Box,
    GenericBox,
}

/// The direction in which a parameter's value flows.
#[derive(Clone, Copy, Debug, PartialEq, Eq, Structural)]
pub enum RfcDirection {
    Import,
    Export,
    Changing,
    Tables,
}

/// A parameter as the function description knows it.
#[derive(Debug)]
pub struct RfcParameterDesc {
    /// The name, as the units of a fixed-size name field.
    pub name: Vec<u16>,
    pub rfc_type: RfcType,
    pub direction: RfcDirection,
    /// Length in bytes in a non-Unicode runtime.
    pub nuc_length: u32,
    /// Length in bytes in a Unicode runtime.
    pub uc_length: u32,
    pub decimals: u32,
    pub optional: bool,
}

pub open spec fn is_int_type(t: RfcType) -> bool {
    t == RfcType::Int || t == RfcType::Int1 || t == RfcType::Int2 || t == RfcType::Int8 || t
        == RfcType::Num
}

pub open spec fn is_string_type(t: RfcType) -> bool {
    t == RfcType::Char || t == RfcType::AbapString || t == RfcType::AbapXString
}

/// A parameter of a function. It borrows the function's data container and
/// cannot outlive it.
#[derive(Debug)]
pub struct RfcParameter<'func> {
    container: &'func HandleSlot,
    desc: RfcParameterDesc,
}

impl<'func> RfcParameter<'func> {
    pub closed spec fn desc(&self) -> RfcParameterDesc {
        self.desc
    }

    pub closed spec fn container(&self) -> usize {
        self.container@
    }

    pub fn new(container: &'func HandleSlot, desc: RfcParameterDesc) -> (r: RfcParameter<'func>)
        ensures
            r.desc() == desc,
            r.container() == container@,
    {
        RfcParameter { container, desc }
    }

    /// The handle of the data container that holds the parameter's value.
    pub fn container_handle(&self) -> (r: usize)
        ensures
            r == self.container(),
    {
        self.container.get()
    }

    /// The descriptor, whose name field addresses the value in the container.
    pub fn descriptor(&self) -> (r: &RfcParameterDesc)
        ensures
            *r == self.desc(),
    {
        &self.desc
    }

    /// The parameter's name, decoded up to the first NUL of its field.
    pub fn name(&self) -> (r: Result<String, RfcErrorInfo>)
        ensures
            r is Ok <==> field_text(self.desc().name@) is Some,
            r matches Ok(s) ==> Some(s@) == field_text(self.desc().name@),
            r matches Err(e) ==> e@ == RfcErrorInfo::invalid_text_record(),
    {
        to_string_truncate(self.desc.name.as_slice())
    }

    /// Whether the parameter is of an integer-like type.
    pub fn is_int(&self) -> (r: bool)
        ensures
            r == is_int_type(self.desc().rfc_type),
    {
        let t = self.desc.rfc_type;
        t == RfcType::Int || t == RfcType::Int1 || t == RfcType::Int2 || t == RfcType::Int8 || t
            == RfcType::Num
    }

    /// Whether the parameter is of a string-like type.
    pub fn is_string(&self) -> (r: bool)
        ensures
            r == is_string_type(self.desc().rfc_type),
    {
        let t = self.desc.rfc_type;
        t == RfcType::Char || t == RfcType::AbapString || t == RfcType::AbapXString
    }

    /// Whether the parameter is of a structure type.
    pub fn is_structure(&self) -> (r: bool)
        ensures
            r == (self.desc().rfc_type == RfcType::Structure),
    {
        self.desc.rfc_type == RfcType::Structure
    }

    /// Whether a value flows in: an import or changing parameter.
    pub fn is_import(&self) -> (r: bool)
        ensures
            r == (self.desc().direction == RfcDirection::Import || self.desc().direction
                == RfcDirection::Changing),
    {
        self.desc.direction == RfcDirection::Import || self.desc.direction == RfcDirection::Changing
    }

    /// Whether a value flows out: an export or changing parameter.
    pub fn is_export(&self) -> (r: bool)
        ensures
            r == (self.desc().direction == RfcDirection::Export || self.desc().direction
                == RfcDirection::Changing),
    {
        self.desc.direction == RfcDirection::Export || self.desc.direction == RfcDirection::Changing
    }

    /// Whether the parameter is a table parameter or table-valued.
    pub fn is_table(&self) -> (r: bool)
        ensures
            r == (self.desc().direction == RfcDirection::Tables || self.desc().rfc_type
                == RfcType::Table),
    {
        self.desc.direction == RfcDirection::Tables || self.desc.rfc_type == RfcType::Table
    }

    pub fn is_optional(&self) -> (r: bool)
        ensures
            r == self.desc().optional,
    {
        self.desc.optional
    }

    /// The parameter as a structure, from the handle that the structure
    /// lookup returned and the type description that describing it returned:
    /// an error, the record that the describe call filled in, where the type
    /// description is null.
    pub fn as_structure(self, handle: usize, type_desc: usize, err: RfcErrorInfo) -> (r: Result<
        RfcStructure<'func>,
        RfcErrorInfo,
    >)
        ensures
            type_desc != 0 ==> (r matches Ok(s) && s.handle() == handle && s.type_desc()
                == type_desc && s.container() == self.container()),
            type_desc == 0 ==> r == Err::<RfcStructure<'func>, RfcErrorInfo>(err),
    {
        if type_desc == 0 {
            Err(err)
        } else {
            Ok(RfcStructure::new(self.container, handle, type_desc))
        }
    }

    /// The parameter as a table, from the handle that the table lookup
    /// returned and the type description that describing it returned: an
    /// error, the record that the describe call filled in, where the type
    /// description is null.
    pub fn as_table(self, handle: usize, type_desc: usize, err: RfcErrorInfo) -> (r: Result<
        RfcTable<'func>,
        RfcErrorInfo,
    >)
        ensures
            type_desc != 0 ==> (r matches Ok(t) && t.handle() == handle && t.type_desc()
                == type_desc && t.container() == self.container()),
            type_desc == 0 ==> r == Err::<RfcTable<'func>, RfcErrorInfo>(err),
    {
        if type_desc == 0 {
            Err(err)
        } else {
            Ok(RfcTable::new(self.container, handle, type_desc))
        }
    }
}

/// The buffer length, in units, for reading a string value whose length the
/// runtime reported as `len`: room for every unit and a terminating NUL.
/// The runtime takes the length as a 32-bit count.
pub fn string_buffer_len(len: u32) -> (r: u32)
    requires
        len < u32::MAX,
    ensures
        r == len + 1,
{
    len + 1
}

/// The text of a string value that the runtime wrote into `buf`, reporting
/// `res_len` units. A length beyond the buffer is refused rather than read.
pub fn string_from_buffer(buf: &[u16], res_len: u32) -> (r: Result<String, RfcErrorInfo>)
    ensures
        res_len > buf@.len() ==> (r matches Err(e) && e@ == RfcErrorInfo::buffer_overrun_record()),
        res_len <= buf@.len() ==> (r is Ok <==> text_of(buf@.take(res_len as int)) is Some),
        res_len <= buf@.len() ==> (r matches Ok(s) ==> Some(s@) == text_of(
            buf@.take(res_len as int),
        )),
        res_len <= buf@.len() ==> (r matches Err(e) ==> e@ == RfcErrorInfo::invalid_text_record()),
{
    if res_len as usize > buf.len() {
        Err(RfcErrorInfo::buffer_overrun())
    } else {
        to_string(buf, res_len as usize)
    }
}

/// The two-phase read of a string never comes up short: for any value
/// `value` whose encoding the runtime stores, the buffer sized from the
/// reported length holds every unit, and reading back the units the runtime
/// writes there gives `value` exactly.
pub proof fn lemma_string_read_round_trip(value: Seq<char>, buf: Seq<u16>)
    requires
        crate::uc::sap_uc_of(value).len() < u32::MAX,
        buf.len() == crate::uc::sap_uc_of(value).len() + 1,
        buf.take(crate::uc::sap_uc_of(value).len() as int) == crate::uc::sap_uc_of(value),
    ensures
        buf.len() > crate::uc::sap_uc_of(value).len(),
        text_of(buf.take(crate::uc::sap_uc_of(value).len() as int)) == Some(value),
{
    crate::uc::lemma_round_trip(value);
}

} // verus!
