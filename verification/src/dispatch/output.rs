//! Events of an output, and of its layer shell object.

use vstd::prelude::*;
use crate::canoe::context::{Context, ContextView};
use crate::canoe::output::OutputView;
use crate::canoe::OutputId;
use crate::dispatch::globals::{Globals, GlobalsView};
use crate::num::{sat, to_i32};
use crate::protocol::ObjectId;

verus! {

/// What the compositor reports about an output.
#[derive(Debug, Clone, Copy, PartialEq, Eq, Structural)]
pub enum OutputReport {
    Removed,
    WlOutput { name: u32 },
    Position { x: i32, y: i32 },
    Dimensions { width: i32, height: i32 },
}

impl ContextView {
    /// Connects an output with the `wl_output` of a name.
    #[verifier::opaque]
    pub open spec fn output_connected(self, id: OutputId, name: u32, g: GlobalsView) -> ContextView {
        match self.output_index(id) {
            Some(k) => self.output_rebound(
                k,
                name,
                match g.wl_output(name) {
                    Some(global) => Some(global.object),
                    None => None,
                },
                g.scale_of(name),
                g,
            ),
            None => self,
        }
    }

    /// With an output changed by `f`, if it exists.
    pub open spec fn output_changed(self, id: OutputId, f: spec_fn(OutputView) -> OutputView) -> ContextView {
        match self.output_index(id) {
            Some(k) => self.with_output(k, f(self.outputs[k])),
            None => self,
        }
    }

    /// What a report about an output does.
    #[verifier::opaque]
    pub open spec fn output_reported(
        self,
        object: ObjectId,
        report: OutputReport,
        g: GlobalsView,
    ) -> ContextView {
        match self.output_of(object) {
            Some(id) => match report {
                OutputReport::Removed => self.output_destroyed(id),
                OutputReport::WlOutput { name } => self.output_connected(id, name, g),
                OutputReport::Position { x, y } => self.output_changed(
                    id,
                    |o: OutputView| OutputView { x, y, ..o },
                ),
                OutputReport::Dimensions { width, height } => self.output_changed(
                    id,
                    |o: OutputView| OutputView { width, height, ..o },
                ),
            },
            None => self,
        }
    }

    /// With the area of an output that no panel takes. A corner that does not
    /// lie on the output is taken as relative to it.
    #[verifier::opaque]
    pub open spec fn area_reported(
        self,
        id: OutputId,
        x: i32,
        y: i32,
        width: i32,
        height: i32,
    ) -> ContextView {
        self.output_changed(
            id,
            |o: OutputView|
                if o.contains_point(x as int, y as int) {
                    OutputView { exclusive_area: Some((x, y, width, height)), ..o }
                } else {
                    OutputView {
                        exclusive_area: Some((sat(x + o.x), sat(y + o.y), width, height)),
                        ..o
                    }
                },
        )
    }
}

impl Context {
    fn connect_output(&mut self, output_id: OutputId, name: u32, globals: &Globals)
        ensures
            final(self)@ == old(self)@.output_connected(output_id, name, globals@),
    {
        proof {
            reveal(ContextView::output_connected);
        }
        if let Some(k) = self.find_output(output_id) {
            let object: Option<ObjectId> = match globals.wl_output(name) {
                Some(global) => Some(global.object),
                None => None,
            };
            self.rebind_output(k, name, object, globals.scale_of(name), globals);
        }
    }

    fn move_output(&mut self, output_id: OutputId, x: i32, y: i32)
        ensures
            final(self)@ == old(self)@.output_changed(
                output_id,
                |o: OutputView| OutputView { x, y, ..o },
            ),
    {
        if let Some(k) = self.find_output(output_id) {
            let ghost before = self@;
            self.outputs[k].update_position(x, y);
            assert(self@ =~= before.with_output(
                k as int,
                OutputView { x, y, ..before.outputs[k as int] },
            ));
        }
    }

    fn resize_output(&mut self, output_id: OutputId, width: i32, height: i32)
        ensures
            final(self)@ == old(self)@.output_changed(
                output_id,
                |o: OutputView| OutputView { width, height, ..o },
            ),
    {
        if let Some(k) = self.find_output(output_id) {
            let ghost before = self@;
            self.outputs[k].update_dimensions(width, height);
            assert(self@ =~= before.with_output(
                k as int,
                OutputView { width, height, ..before.outputs[k as int] },
            ));
        }
    }

    /// The compositor reported something about an output
    pub fn output_report(&mut self, object: ObjectId, report: OutputReport, globals: &Globals)
        ensures
            final(self)@ == old(self)@.output_reported(object, report, globals@),
    {
        proof {
            reveal(ContextView::output_reported);
        }
        if let Some(id) = self.output_of(object) {
            match report {
                OutputReport::Removed => self.destroy_output(id),
                OutputReport::WlOutput { name } => self.connect_output(id, name, globals),
                OutputReport::Position { x, y } => self.move_output(id, x, y),
                OutputReport::Dimensions { width, height } => self.resize_output(id, width, height),
            }
        }
    }

    /// The compositor reported the area of an output that no panel takes
    pub fn non_exclusive_area(&mut self, output_id: OutputId, x: i32, y: i32, width: i32, height: i32)
        ensures
            final(self)@ == old(self)@.area_reported(output_id, x, y, width, height),
    {
        proof {
            reveal(ContextView::area_reported);
        }
        if let Some(k) = self.find_output(output_id) {
            let ghost before = self@;
            let mut global_x: i32 = x;
            let mut global_y: i32 = y;
            if !self.outputs[k].contains_point(x as i64, y as i64) {
                global_x = to_i32(x as i64 + self.outputs[k].x as i64);
                global_y = to_i32(y as i64 + self.outputs[k].y as i64);
            }
            self.outputs[k].update_exclusive_area(global_x, global_y, width, height);
            assert(self@ =~= before.with_output(
                k as int,
                OutputView {
                    exclusive_area: Some((global_x, global_y, width, height)),
                    ..before.outputs[k as int]
                },
            ));
        }
    }
}

} // verus!
