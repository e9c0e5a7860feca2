//! Extracting component values from submitted modals.

use vstd::prelude::*;

use crate::model::{ModalInteractionDataActionRow, ModalInteractionDataComponent};
use crate::text::str_eq;

verus! {

/// The value of the first component of `components` whose custom ID is
/// `custom_id`: `None` when no component matches, and otherwise the matching
/// component's value field, which may itself be absent.
pub open spec fn spec_row_component_value(
    components: Seq<ModalInteractionDataComponent>,
    custom_id: Seq<char>,
) -> Option<Option<String>>
    decreases components.len(),
{
    if components.len() == 0 {
        None
    } else if components[0].custom_id@ == custom_id {
        Some(components[0].value)
    } else {
        spec_row_component_value(components.drop_first(), custom_id)
    }
}

/// The value of the first component across `rows` (in row order) whose
/// custom ID is `custom_id`, or `None` when no component matches or the
/// first matching component carries no value.
pub open spec fn spec_component_value(
    rows: Seq<ModalInteractionDataActionRow>,
    custom_id: Seq<char>,
) -> Option<String>
    decreases rows.len(),
{
    if rows.len() == 0 {
        None
    } else {
        match spec_row_component_value(rows[0].components@, custom_id) {
            Some(value) => value,
            None => spec_component_value(rows.drop_first(), custom_id),
        }
    }
}

/// Extract the value of the component with the given custom ID from the
/// action rows of a submitted modal.
///
/// The rows are searched in order; the first component whose custom ID
/// matches decides the result, so a matching component without a value
/// yields `None` even if a later component matches too.
pub fn component_value(rows: Vec<ModalInteractionDataActionRow>, custom_id: &str) -> (value: Option<
    String,
>)
    ensures
        value == spec_component_value(rows@, custom_id@),
{
    let mut remaining_rows = rows;
    while remaining_rows.len() > 0
        invariant
            spec_component_value(rows@, custom_id@) == spec_component_value(
                remaining_rows@,
                custom_id@,
            ),
        decreases remaining_rows@.len(),
    {
        let ghost previous_rows = remaining_rows@;
        let row = remaining_rows.remove(0);
        proof {
            assert(previous_rows.remove(0) =~= previous_rows.drop_first());
        }
        let mut components = row.components;
        let ghost row_components = components@;
        while components.len() > 0
            invariant
                spec_component_value(rows@, custom_id@) == spec_component_value(
                    previous_rows,
                    custom_id@,
                ),
                previous_rows.len() > 0,
                row_components == previous_rows[0].components@,
                remaining_rows@ == previous_rows.drop_first(),
                spec_row_component_value(row_components, custom_id@) == spec_row_component_value(
                    components@,
                    custom_id@,
                ),
            decreases components@.len(),
        {
            let ghost previous_components = components@;
            let component = components.remove(0);
            proof {
                assert(previous_components.remove(0) =~= previous_components.drop_first());
            }
            if str_eq(component.custom_id.as_str(), custom_id) {
                return component.value;
            }
        }
    }
    None
}

/// Extracting the value of a modal component by its custom ID.
pub trait ExtractModalComponent {
    /// Extract the value of the component with the given custom ID.
    ///
    /// Returns `None` if not found.
    fn component(self, custom_id: &str) -> Option<String>;
}

impl ExtractModalComponent for Vec<ModalInteractionDataActionRow> {
    fn component(self, custom_id: &str) -> Option<String> {
        component_value(self, custom_id)
    }
}

} // verus!
