//! The descriptive strings of a device, as shown to the user.

use vstd::prelude::*;
use vstd::string::StringExecFns;

verus! {

/// What stands in for a string that the device did not give.
pub open spec fn placeholder() -> Seq<char> {
    "N/A"@
}

/// The strings that describe a device.
#[derive(Debug)]
pub struct DeviceInfo {
    pub manufacturer: String,
    pub product: String,
    pub serial: String,
}

/// The language in which the strings are asked for: the first that the
/// device supports. A device without languages is asked for no strings.
pub fn pick_language(languages: &Vec<u16>) -> (r: Option<u16>)
    ensures
        languages@.len() == 0 ==> r is None,
        languages@.len() > 0 ==> r == Some(languages@[0]),
{
    if languages.len() == 0 {
        None
    } else {
        Some(languages[0])
    }
}

/// The text itself, or the placeholder where the device gave none.
pub fn text_or_placeholder(text: Option<String>) -> (s: String)
    ensures
        text is Some ==> s@ == text->0@,
        text is None ==> s@ == placeholder(),
{
    match text {
        Some(t) => t,
        None => String::from_str("N/A"),
    }
}

/// Puts the three strings together; a string that could not be read is
/// replaced by the placeholder and is no failure.
pub fn device_info(
    manufacturer: Option<String>,
    product: Option<String>,
    serial: Option<String>,
) -> (info: DeviceInfo)
    ensures
        manufacturer is Some ==> info.manufacturer@ == manufacturer->0@,
        manufacturer is None ==> info.manufacturer@ == placeholder(),
        product is Some ==> info.product@ == product->0@,
        product is None ==> info.product@ == placeholder(),
        serial is Some ==> info.serial@ == serial->0@,
        serial is None ==> info.serial@ == placeholder(),
{
    DeviceInfo {
        manufacturer: text_or_placeholder(manufacturer),
        product: text_or_placeholder(product),
        serial: text_or_placeholder(serial),
    }
}

} // verus!
