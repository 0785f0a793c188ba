use vstd::prelude::*;

verus! {

/// The error type of the USB HID transport, carried as the cause of a failed
/// connection. It is opaque here: it is only passed along.
#[verifier::external_type_specification]
#[verifier::external_body]
pub struct ExHidError(hidapi::HidError);

/// The ways a scale operation can fail.
#[derive(Debug)]
pub enum ScaleError {
    /// The USB subsystem could not be initialised.
    UsbError(hidapi::HidError),
    /// No device with the requested vendor and product ids could be opened.
    ConnectError(hidapi::HidError),
    /// No read returned a full report within the retry budget.
    ReadError,
    /// A full report carried an unrecognised unit code.
    ParseError,
}

pub type ScaleResult<T> = Result<T, ScaleError>;


/// Relies on the `Display` impl of `hidapi::HidError`, which describes the
/// transport failure; nothing is assumed of the text.
#[verifier::external_body]
fn hid_error_text(e: &hidapi::HidError) -> (r: String) {
    e.to_string()
}

/// The fixed text that starts the description of each kind of error.
pub open spec fn error_prefix(e: ScaleError) -> Seq<char> {
    match e {
        ScaleError::UsbError(_) => "Could not open HID connection! "@,
        ScaleError::ConnectError(_) => "No scale connected! "@,
        ScaleError::ReadError => "Failed to read scale data!"@,
        ScaleError::ParseError => "Error parsing data from scale!"@,
    }
}

impl ScaleError {
    /// The transport error that caused this one: present for the two
    /// connection errors, absent for read and parse errors.
    pub fn source(&self) -> (r: Option<&hidapi::HidError>)
        ensures
            match *self {
                ScaleError::UsbError(cause) => r == Some(&cause),
                ScaleError::ConnectError(cause) => r == Some(&cause),
                _ => r is None,
            },
    {
        match self {
            ScaleError::UsbError(cause) => Some(cause),
            ScaleError::ConnectError(cause) => Some(cause),
            ScaleError::ReadError => None,
            ScaleError::ParseError => None,
        }
    }

    /// The error as text: a fixed description of its kind, followed, for
    /// the two connection errors, by the transport error's own text.
    pub fn to_string(&self) -> (r: String)
        ensures
            r@.len() >= error_prefix(*self).len(),
            r@.subrange(0, error_prefix(*self).len() as int) == error_prefix(*self),
            (*self is ReadError || *self is ParseError) ==> r@ == error_prefix(*self),
    {
        let mut text = String::new();
        match self {
            ScaleError::UsbError(cause) => {
                text.append("Could not open HID connection! ");
                let detail = hid_error_text(cause);
                text.append(detail.as_str());
            },
            ScaleError::ConnectError(cause) => {
                text.append("No scale connected! ");
                let detail = hid_error_text(cause);
                text.append(detail.as_str());
            },
            ScaleError::ReadError => {
                text.append("Failed to read scale data!");
            },
            ScaleError::ParseError => {
                text.append("Error parsing data from scale!");
            },
        }
        proof {
            reveal_strlit("");
            reveal_strlit("Could not open HID connection! ");
            reveal_strlit("No scale connected! ");
            reveal_strlit("Failed to read scale data!");
            reveal_strlit("Error parsing data from scale!");
            assert(text@.subrange(0, error_prefix(*self).len() as int) =~= error_prefix(*self));
        }
        text
    }
}

} // verus!
