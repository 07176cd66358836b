//! A leaf widget: a line of text with a font.
//!
//! Text shaping and rendering belong to the native text stack; what is
//! modelled here is the measured extent, one font-size unit of height and
//! one per character of width.

use vstd::prelude::*;
use vstd::string::StrSliceExecFns;
use crate::env::Env;
use crate::geometry::{BoxConstraints, Dim, Size};
use crate::paint::PaintCtx;
use crate::text::font_descriptor::FontDescriptor;
use crate::widget::{
    child_ids, ChildIds, Event, EventCtx, LifeCycle, LifeCycleCtx, StatusChange, Widget,
};

verus! {

/// A line of text drawn with a font.
pub struct Label {
    pub text: String,
    pub font: FontDescriptor,
}

impl Label {
    /// A label over the given text, in the default font.
    pub fn new(text: String) -> (r: Label)
        ensures
            r.text == text,
            r.font == FontDescriptor::new_spec(
                crate::text::font_descriptor::FontFamily::SystemUi,
            ),
    {
        Label { text, font: FontDescriptor::default() }
    }

    /// Builder-style method to set the label's font.
    pub fn with_font(self, font: FontDescriptor) -> (r: Label)
        ensures
            r.font == font,
            r.text == self.text,
    {
        Label { font, ..self }
    }

    /// The extent the text is modelled to take: one font-size unit per
    /// character of width, one of height. A width too large for the unit
    /// type is unbounded.
    pub open spec fn measure_spec(self) -> Size {
        Size {
            width: if self.text@.len() * self.font.size <= u64::MAX {
                Dim::Finite((self.text@.len() * self.font.size) as u64)
            } else {
                Dim::Inf
            },
            height: Dim::Finite(self.font.size),
        }
    }

    pub fn measure(&self) -> (r: Size)
        ensures
            r == self.measure_spec(),
    {
        let len: usize = self.text.as_str().unicode_len();
        let width: Dim = if self.font.size == 0 {
            Dim::Finite(0)
        } else if len as u64 <= u64::MAX / self.font.size {
            proof {
                assert(len as int * self.font.size as int <= u64::MAX as int) by (nonlinear_arith)
                    requires
                        len as int <= u64::MAX as int / self.font.size as int,
                        self.font.size as int > 0,
                ;
            }
            Dim::Finite(len as u64 * self.font.size)
        } else {
            proof {
                assert(len as int * self.font.size as int > u64::MAX as int) by (nonlinear_arith)
                    requires
                        len as int > u64::MAX as int / self.font.size as int,
                        self.font.size as int > 0,
                ;
            }
            Dim::Inf
        };
        Size { width, height: Dim::Finite(self.font.size) }
    }
}

impl Widget for Label {
    fn on_event(&mut self, ctx: &mut EventCtx, event: &Event)
        ensures
            *final(self) == *old(self),
            *final(ctx) == *old(ctx),
    {
    }

    fn on_status_change(&mut self, ctx: &mut LifeCycleCtx, event: &StatusChange)
        ensures
            *final(self) == *old(self),
            *final(ctx) == *old(ctx),
    {
    }

    fn lifecycle(&mut self, ctx: &mut LifeCycleCtx, event: &LifeCycle)
        ensures
            *final(self) == *old(self),
            *final(ctx) == *old(ctx),
    {
    }

    fn layout(&mut self, bc: &BoxConstraints, env: &Env) -> (s: Size)
        ensures
            *final(self) == *old(self),
            s == bc.constrain_spec(old(self).measure_spec()),
    {
        let measured = self.measure();
        bc.constrain(measured)
    }

    fn paint(&mut self, ctx: &mut PaintCtx, env: &Env)
        ensures
            *final(self) == *old(self),
            final(ctx).ops@ == old(ctx).ops@,
    {
    }

    fn children(&self) -> (r: ChildIds)
        ensures
            child_ids(r) == Seq::<u64>::empty(),
    {
        ChildIds::new()
    }
}

} // verus!
