//! Catalog entities: categories (named color groups) and keys.
//!
//! Every key belongs to exactly one category by `CategoryId` and may carry an
//! optional per-key color override. A key's category id is a foreign key into
//! the catalog's category list; a dangling reference is tolerated here and
//! surfaces only as a resolution failure.

use crate::color::Color;
use vstd::prelude::*;
use vstd::string::StringExecFns;

verus! {

/// Identifier of a category, unique within a catalog's category list.
pub type CategoryId = u8;

/// Identifier of a physical key, in the external driver's naming convention
/// (for example `"A"`, `"LEFTSHIFT"`, `"F1"`).
pub type KeyId = String;

/// A named group of keys sharing a default color.
#[derive(Clone, Debug)]
pub struct Category {
    pub id: CategoryId,
    pub description: String,
    pub color: Color,
}

impl Category {
    /// Builds a category; identity is the id, the description is for humans.
    pub fn new(id: CategoryId, description: &str, color: Color) -> (c: Category)
        ensures
            c.id == id,
            c.description@ == description@,
            c.color == color,
    {
        Category { id, description: String::from_str(description), color }
    }

    pub fn id(&self) -> (r: CategoryId)
        ensures
            r == self.id,
    {
        self.id
    }

    pub fn description(&self) -> (r: &str)
        ensures
            r@ == self.description@,
    {
        self.description.as_str()
    }

    pub fn color(&self) -> (r: Color)
        ensures
            r == self.color,
    {
        self.color
    }
}

/// A physical key: its driver name, its category, and an optional color
/// override that beats the category's color.
#[derive(Clone, Debug)]
pub struct Key {
    pub id: KeyId,
    pub category: CategoryId,
    pub custom_color: Option<Color>,
}

impl Key {
    /// Builds a key assigned to `category`, optionally overridden.
    pub fn new(id: KeyId, category: CategoryId, custom_color: Option<Color>) -> (k: Key)
        ensures
            k.id@ == id@,
            k.category == category,
            k.custom_color == custom_color,
    {
        Key { id, category, custom_color }
    }

    pub fn id(&self) -> (r: &KeyId)
        ensures
            r@ == self.id@,
    {
        &self.id
    }

    pub fn category(&self) -> (r: CategoryId)
        ensures
            r == self.category,
    {
        self.category
    }

    pub fn custom_color(&self) -> (r: Option<Color>)
        ensures
            r == self.custom_color,
    {
        self.custom_color
    }
}

} // verus!
