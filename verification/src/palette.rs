//! A palette: a named, ordered, non-empty list of colours.

use vstd::prelude::*;
use crate::color::Color;

pub use crate::catalog::{get_default_palettes, get_palette, get_palette_keys, palette_exists};

verus! {

/// A fixed, named, ordered list of colours. The order matters: it decides
/// which of two equally near colours a match returns. A palette always holds
/// at least one colour.
#[derive(Debug)]
pub struct Palette {
    name: String,
    colors: Vec<Color>,
}

/// What a palette is, mathematically: its display name and its colours in
/// their stored order.
pub struct PaletteView {
    pub name: Seq<char>,
    pub colors: Seq<Color>,
}

impl View for Palette {
    type V = PaletteView;

    closed spec fn view(&self) -> PaletteView {
        PaletteView { name: self.name@, colors: self.colors@ }
    }
}

impl Palette {
    #[verifier::type_invariant]
    spec fn has_a_color(self) -> bool {
        self.colors@.len() > 0
    }

    /// Builds a palette from a display name and its colours, in order.
    /// An empty list of colours is rejected.
    pub fn new(name: String, colors: Vec<Color>) -> (res: Option<Palette>)
        ensures
            res is Some <==> colors@.len() > 0,
            res matches Some(p) ==> p@.name == name@ && p@.colors == colors@,
    {
        if colors.len() == 0 {
            None
        } else {
            Some(Palette { name, colors })
        }
    }

    /// The display name.
    pub fn name(&self) -> (res: &str)
        ensures
            res@ == self@.name,
    {
        self.name.as_str()
    }

    /// The colour at `index`, if the palette has that many.
    pub fn get_color(&self, index: usize) -> (res: Option<&Color>)
        ensures
            res is Some <==> index < self@.colors.len(),
            res matches Some(c) ==> *c == self@.colors[index as int],
    {
        if index < self.colors.len() {
            Some(&self.colors[index])
        } else {
            None
        }
    }

    /// The number of colours, which is never zero.
    pub fn len(&self) -> (n: usize)
        ensures
            n == self@.colors.len(),
            n > 0,
    {
        proof {
            use_type_invariant(self);
        }
        self.colors.len()
    }

    /// Whether the palette holds no colour. No palette does.
    pub fn is_empty(&self) -> (b: bool)
        ensures
            b == (self@.colors.len() == 0),
            !b,
    {
        proof {
            use_type_invariant(self);
        }
        self.colors.len() == 0
    }

    /// The colours in their stored order.
    pub fn colors(&self) -> (res: &[Color])
        ensures
            res@ == self@.colors,
            res@.len() > 0,
    {
        proof {
            use_type_invariant(self);
        }
        self.colors.as_slice()
    }
}

impl Clone for Palette {
    /// An independent copy with the same name and the same colours.
    fn clone(&self) -> (res: Palette)
        ensures
            res@ == self@,
    {
        proof {
            use_type_invariant(self);
        }
        let mut colors: Vec<Color> = Vec::new();
        let mut i: usize = 0;
        while i < self.colors.len()
            invariant
                i <= self.colors@.len(),
                colors@ == self.colors@.take(i as int),
            decreases self.colors@.len() - i,
        {
            colors.push(self.colors[i]);
            i += 1;
        }
        assert(colors@ == self.colors@);
        Palette { name: self.name.clone(), colors }
    }
}

} // verus!
