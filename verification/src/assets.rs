//! The static assets of a front end that serves generated art: an index
//! page, a font and an icon, held as plain values and handed out
//! unchanged.
//!
//! The caller reads the assets from wherever it keeps them and fills the
//! store once; every getter returns exactly what was stored.

use vstd::prelude::*;

verus! {

/// A fixed set of front-end assets.
#[derive(Debug)]
pub struct StaticSite {
    pub index: String,
    pub font: Vec<u8>,
    pub favicon: Vec<u8>,
}

impl StaticSite {
    /// A store over the given assets.
    pub fn new(index: String, font: Vec<u8>, favicon: Vec<u8>) -> (s: StaticSite)
        ensures
            s.index@ == index@,
            s.font@ == font@,
            s.favicon@ == favicon@,
    {
        StaticSite { index, font, favicon }
    }

    /// The index page markup, unchanged.
    pub fn get_index(&self) -> (r: &str)
        ensures
            r@ == self.index@,
    {
        self.index.as_str()
    }

    /// The font bytes, unchanged.
    pub fn get_font(&self) -> (r: &Vec<u8>)
        ensures
            r@ == self.font@,
    {
        &self.font
    }

    /// The icon bytes, unchanged.
    pub fn get_favicon(&self) -> (r: &Vec<u8>)
        ensures
            r@ == self.favicon@,
    {
        &self.favicon
    }
}

} // verus!
