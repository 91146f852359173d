//! The title of the window that shows a single image.

use crate::decimal::{decimal, push_decimal};
use crate::models::Image;
use vstd::prelude::*;
use vstd::string::*;

verus! {

/// Takes the next number off `counter`.
pub fn get_unique_id(counter: &mut usize) -> (id: usize)
    requires
        *old(counter) < usize::MAX,
    ensures
        id == *old(counter),
        *final(counter) == *old(counter) + 1,
{
    let id: usize = *counter;
    *counter += 1;
    id
}

/// The title of the window of an image that has no name and was given the
/// number `id`.
pub open spec fn unnamed_image_label(id: nat) -> Seq<char> {
    "unnamed image "@ + decimal(id)
}

/// The title of the window of `image`: its name, or one made up from the
/// next number of `unnamed_counter` where it has none. The counter moves on
/// for every image, named or not.
pub fn image_window_title(unnamed_counter: &mut usize, image: &Image) -> (title: String)
    requires
        *old(unnamed_counter) < usize::MAX,
    ensures
        *final(unnamed_counter) == *old(unnamed_counter) + 1,
        title@ == match image@.name {
            Some(name) => name,
            None => unnamed_image_label(*old(unnamed_counter) as nat),
        },
{
    let id: usize = get_unique_id(unnamed_counter);
    match &image.name {
        Some(name) => name.clone(),
        None => {
            let mut title = String::from_str("unnamed image ");
            push_decimal(&mut title, id as u64);
            title
        },
    }
}

} // verus!
