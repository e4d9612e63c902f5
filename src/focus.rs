//! Focus inspection: whether a text-input element holds the keyboard focus,
//! and where the pointer is, in top-left-origin coordinates.

use vstd::prelude::*;
use crate::geometry::{PointerLocation, ScreenFrame, TextFieldBounds, pointer_anchor, to_top_left};

verus! {

/// The status code by which an accessibility query reports success.
pub const AX_SUCCESS: i32 = 0;

/// What the accessibility tree answered to one focus query.
#[derive(Clone, Copy, Debug, PartialEq, Eq, Structural)]
pub struct FocusProbe {
    /// The system-wide accessibility root could be created.
    pub root_created: bool,
    /// Status of the request for the focused element.
    pub focused_status: i32,
    /// The request for the focused element returned an element.
    pub focused_present: bool,
    /// Status of the request for the focused element's value attribute;
    /// consulted only when an element is focused.
    pub value_status: i32,
}

/// What the platform answered to one pointer query; `None` stands for a
/// lookup of the platform class that failed.
#[derive(Clone, Copy, Debug, PartialEq, Eq, Structural)]
pub struct CursorProbe {
    pub pointer: Option<PointerLocation>,
    pub screen: Option<ScreenFrame>,
}

/// The platform lookup that failed.
#[derive(Clone, Copy, Debug, PartialEq, Eq, Structural)]
pub enum ApiLookup {
    PointerSource,
    ScreenSource,
}

/// Why no bounds could be produced.
#[derive(Clone, Copy, Debug, PartialEq, Eq, Structural)]
pub enum InspectError {
    /// Nothing eligible holds the focus: an expected, silent case.
    NoFocusedField,
    /// A platform lookup itself failed.
    ApiFailure(ApiLookup),
}

impl InspectError {
    pub open spec fn message_spec(self) -> Seq<char> {
        match self {
            InspectError::NoFocusedField => "No focused text field"@,
            InspectError::ApiFailure(ApiLookup::PointerSource) => "Failed to get NSEvent class"@,
            InspectError::ApiFailure(ApiLookup::ScreenSource) => "Failed to get NSScreen class"@,
        }
    }

    /// The message reported to the command caller.
    pub fn message(&self) -> (r: String)
        ensures
            r@ == self.message_spec(),
    {
        match self {
            InspectError::NoFocusedField => "No focused text field".to_owned(),
            InspectError::ApiFailure(ApiLookup::PointerSource) => "Failed to get NSEvent class".to_owned(),
            InspectError::ApiFailure(ApiLookup::ScreenSource) => "Failed to get NSScreen class".to_owned(),
        }
    }
}

/// A focused element counts as a text input when it answers a request for
/// its value attribute; every failure along the way counts as "no".
pub open spec fn text_input_focused(p: FocusProbe) -> bool {
    &&& p.root_created
    &&& p.focused_status == AX_SUCCESS
    &&& p.focused_present
    &&& p.value_status == AX_SUCCESS
}

pub open spec fn cursor_result(c: CursorProbe) -> Result<TextFieldBounds, InspectError> {
    match c.pointer {
        None => Err(InspectError::ApiFailure(ApiLookup::PointerSource)),
        Some(p) => match c.screen {
            None => Err(InspectError::ApiFailure(ApiLookup::ScreenSource)),
            Some(s) => Ok(pointer_anchor(p, s)),
        },
    }
}

pub open spec fn focused_bounds_result(f: FocusProbe, c: CursorProbe) -> Result<TextFieldBounds, InspectError> {
    if text_input_focused(f) {
        cursor_result(c)
    } else {
        Err(InspectError::NoFocusedField)
    }
}

/// Whether the focused element is a text input.
pub fn is_text_field_focused(probe: &FocusProbe) -> (r: bool)
    ensures
        r == text_input_focused(*probe),
{
    if !probe.root_created {
        return false;
    }
    let is_focused = probe.focused_status == AX_SUCCESS && probe.focused_present;
    is_focused && probe.value_status == AX_SUCCESS
}

/// The pointer position as zero-sized bounds with a top-left origin.
pub fn get_cursor_position(probe: &CursorProbe) -> (r: Result<TextFieldBounds, InspectError>)
    ensures
        r == cursor_result(*probe),
        r is Ok <==> probe.pointer is Some && probe.screen is Some,
{
    let p = match probe.pointer {
        Some(p) => p,
        None => return Err(InspectError::ApiFailure(ApiLookup::PointerSource)),
    };
    let s = match probe.screen {
        Some(s) => s,
        None => return Err(InspectError::ApiFailure(ApiLookup::ScreenSource)),
    };
    Ok(to_top_left(p, s))
}

/// The anchor for an overlay over the focused text field: the pointer
/// position when a text input is focused, else `NoFocusedField`.
pub fn get_focused_text_field_bounds(focus: &FocusProbe, cursor: &CursorProbe) -> (r: Result<TextFieldBounds, InspectError>)
    ensures
        r == focused_bounds_result(*focus, *cursor),
        !text_input_focused(*focus) ==> r == Err::<TextFieldBounds, InspectError>(InspectError::NoFocusedField),
{
    if is_text_field_focused(focus) {
        get_cursor_position(cursor)
    } else {
        Err(InspectError::NoFocusedField)
    }
}

} // verus!
