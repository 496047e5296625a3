//! Types specific to the special ReadDeviceInfo function
use vstd::prelude::*;

verus! {

/// Describes object standard conformity
///
/// - **Basic** - Mandatory for Modbus standard conformity
/// - **Regular** - Defined in the standard, but implementation is optional
/// - **Extended** - Optional fields that are reserved for device specific information
#[derive(Copy, Clone, Debug, PartialEq, Eq, Structural)]
pub enum DeviceInfoCategory {
    Basic,
    Regular,
    Extended,
}

/// The category that an object id falls in: `0x00..=0x02` is basic,
/// `0x03..=0x7f` regular, `0x80..=0xff` extended.
pub open spec fn category_of(id: u8) -> DeviceInfoCategory {
    if id <= 0x02 {
        DeviceInfoCategory::Basic
    } else if id <= 0x7f {
        DeviceInfoCategory::Regular
    } else {
        DeviceInfoCategory::Extended
    }
}

/// Struct representing a device information object.
///
/// The following object IDs are defined in the Modbus standard:
/// - **0x00** *BASIC* `VendorName`
/// - **0x01** *BASIC* `ProductCode`
/// - **0x02** *BASIC* `MajorMinorRevision`
/// - **0x03** *REGULAR* `VendorUrl`
/// - **0x04** *REGULAR* `ProductName`
/// - **0x05** *REGULAR* `ModelName`
/// - **0x06** *REGULAR* `UserApplicationName`
/// - **0x07 - 0x7F** *REGULAR* `Reserved`
/// - **0x80 - 0xFF** *EXTENDED* `Device Specific`
#[derive(Debug)]
pub struct DeviceInfoObject {
    id: u8,
    value: String,
}

/// What a device information object is: an id and a text.
pub struct DeviceInfoObjectView {
    pub id: u8,
    pub value: Seq<char>,
}

impl View for DeviceInfoObject {
    type V = DeviceInfoObjectView;

    closed spec fn view(&self) -> DeviceInfoObjectView {
        DeviceInfoObjectView { id: self.id, value: self.value@ }
    }
}

impl Clone for DeviceInfoObject {
    fn clone(&self) -> (copy: Self)
        ensures
            copy@ == self@,
    {
        DeviceInfoObject { id: self.id, value: self.value.clone() }
    }
}

impl DeviceInfoObject {
    /// An object with the given id and text.
    pub fn new(obj_id: u8, value: String) -> (object: Self)
        ensures
            object@.id == obj_id,
            object@.value == value@,
    {
        Self { id: obj_id, value }
    }

    /// A copy of the object's text.
    pub fn to_string(&self) -> (text: String)
        ensures
            text@ == self@.value,
    {
        self.value.clone()
    }

    /// The object's id.
    pub fn id(&self) -> (id: u8)
        ensures
            id == self@.id,
    {
        self.id
    }

    /// The category that the object's id falls in.
    pub fn category(&self) -> (category: DeviceInfoCategory)
        ensures
            category == category_of(self@.id),
    {
        if self.id <= 0x02 {
            DeviceInfoCategory::Basic
        } else if self.id <= 0x7f {
            DeviceInfoCategory::Regular
        } else {
            DeviceInfoCategory::Extended
        }
    }
}

} // verus!
