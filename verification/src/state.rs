//! The application state: the configuration of the surface, the pipeline,
//! the uploaded objects and the clear colour, with the hooks that the event
//! loop calls.

use crate::event::WindowEvent;
use crate::frame::{Color, Frame, SurfaceError};
use crate::pipeline::{build, build_error, BuildError, RenderPipelineDescriptor, ShaderProgram};
use crate::surface::{config_for, get_config, PhysicalSize, SurfaceConfiguration, TextureFormat};
use crate::vertex::{Mesh, RenderObject};
use vstd::endian::endianness;
use vstd::prelude::*;

verus! {

/// Everything that lives as long as the window does.
#[derive(Debug, PartialEq, Eq)]
pub struct State {
    pub config: SurfaceConfiguration,
    pub size: PhysicalSize,
    pub clear_color: Color,
    pub render_pipeline: RenderPipelineDescriptor,
    pub objects_vec: Vec<RenderObject>,
    /// The counts of all the objects, added up.
    pub objects_count: u32,
}

/// The counts of the objects, added up.
pub open spec fn count_sum(objects: Seq<RenderObject>) -> nat
    decreases objects.len(),
{
    if objects.len() == 0 {
        0
    } else {
        count_sum(objects.drop_last()) + objects.last().count as nat
    }
}

/// The counts of some of the first objects add up to no more than the
/// counts of all.
pub proof fn lemma_count_sum_prefix(objects: Seq<RenderObject>, n: int)
    requires
        0 <= n <= objects.len(),
    ensures
        count_sum(objects.take(n)) <= count_sum(objects),
    decreases objects.len(),
{
    if n == objects.len() {
        assert(objects.take(n) =~= objects);
    } else {
        lemma_count_sum_prefix(objects.drop_last(), n);
        assert(objects.drop_last().take(n) =~= objects.take(n));
    }
}

/// Adds up the counts of the objects, where the sum fits in 32 bits.
pub fn total_count(objects: &Vec<RenderObject>) -> (total: Option<u32>)
    ensures
        match total {
            Some(sum) => sum == count_sum(objects@),
            None => count_sum(objects@) > u32::MAX,
        },
{
    let mut sum: u32 = 0;
    let mut i: usize = 0;
    while i < objects.len()
        invariant
            i <= objects.len(),
            sum == count_sum(objects@.take(i as int)),
        decreases objects.len() - i,
    {
        proof {
            assert(objects@.take(i + 1).drop_last() =~= objects@.take(i as int));
            lemma_count_sum_prefix(objects@, i + 1);
        }
        match sum.checked_add(objects[i].count) {
            Some(next) => {
                sum = next;
            },
            None => {
                return None;
            },
        }
        i += 1;
    }
    assert(objects@.take(i as int) =~= objects@);
    Some(sum)
}

impl State {
    /// The configuration has the size of the window, and the count kept is
    /// the sum of the counts of the objects.
    pub open spec fn wf(self) -> bool {
        &&& self.config.width == self.size.width
        &&& self.config.height == self.size.height
        &&& self.objects_count == count_sum(self.objects_vec@)
    }

    /// The state that `resize` leaves: of the new size where neither
    /// dimension is zero, else as it was.
    pub open spec fn resized(self, new_size: PhysicalSize) -> State {
        if new_size.width > 0 && new_size.height > 0 {
            State {
                size: new_size,
                config: SurfaceConfiguration {
                    width: new_size.width,
                    height: new_size.height,
                    ..self.config
                },
                ..self
            }
        } else {
            self
        }
    }

    /// A size with a dimension of zero leaves the state as it was: the
    /// size, the configuration and everything else.
    pub proof fn lemma_resize_zero(self, new_size: PhysicalSize)
        requires
            new_size.width == 0 || new_size.height == 0,
        ensures
            self.resized(new_size) == self,
    {
    }

    /// A size with no dimension of zero becomes the size of the state and
    /// of its configuration; nothing else changes, and the configuration
    /// then has the size of the window.
    pub proof fn lemma_resize_positive(self, new_size: PhysicalSize)
        requires
            new_size.width > 0,
            new_size.height > 0,
        ensures
            self.resized(new_size).size == new_size,
            self.resized(new_size).config.width == new_size.width,
            self.resized(new_size).config.height == new_size.height,
            self.resized(new_size).config.format == self.config.format,
            self.resized(new_size).config.usage == self.config.usage,
            self.resized(new_size).config.present_mode == self.config.present_mode,
            self.resized(new_size).clear_color == self.clear_color,
            self.resized(new_size).render_pipeline == self.render_pipeline,
            self.resized(new_size).objects_vec == self.objects_vec,
            self.resized(new_size).objects_count == self.objects_count,
            self.objects_count == count_sum(self.objects_vec@) ==> self.resized(new_size).wf(),
    {
    }

    /// Whatever the new size, a state whose configuration has the size of
    /// the window is left as one.
    pub proof fn lemma_resize_keeps_wf(self, new_size: PhysicalSize)
        requires
            self.wf(),
        ensures
            self.resized(new_size).wf(),
    {
    }

    /// Sets the state up for a window of the given size whose surface
    /// prefers `format`: configures the surface, builds the pipeline out of
    /// `shader`, and uploads the triangle. The clear colour starts out with
    /// every channel at zero.
    pub fn new(size: PhysicalSize, format: TextureFormat, shader: ShaderProgram) -> (made: Result<
        State,
        BuildError,
    >)
        ensures
            match made {
                Ok(state) => {
                    &&& build_error(shader.entry_points@) is None
                    &&& state.config == config_for(size, format)
                    &&& state.size == size
                    &&& state.clear_color == (Color { r: 0, g: 0, b: 0, a: 0 })
                    &&& state.render_pipeline.built_for(format, shader.module)
                    &&& state.objects_vec@.len() == 1
                    &&& state.objects_vec@[0].uploaded(Mesh::triangle_view(), endianness())
                    &&& state.objects_count == 3
                    &&& state.wf()
                },
                Err(error) => build_error(shader.entry_points@) == Some(error),
            },
    {
        let color = Color::default();
        let config = get_config(&size, format);
        let render_pipeline = match build(&config, shader) {
            Ok(pipeline) => pipeline,
            Err(error) => {
                return Err(error);
            },
        };
        let triangle_object = RenderObject::from_mesh(Mesh::triangle());
        let objects_vec = vec![triangle_object];
        proof {
            assert(objects_vec@.drop_last() =~= Seq::<RenderObject>::empty());
            assert(count_sum(objects_vec@.drop_last()) == 0);
            assert(Mesh::triangle_vertices().len() == 3);
            assert(count_sum(objects_vec@) == 3);
        }
        let count = total_count(&objects_vec).unwrap();
        Ok(
            State {
                clear_color: color,
                config,
                size,
                render_pipeline,
                objects_vec,
                objects_count: count,
            },
        )
    }

    /// Follows a change of the window's size. A size with a dimension of
    /// zero is ignored. The result says whether the surface is to be
    /// configured again, with the configuration that the state then holds.
    pub fn resize(&mut self, new_size: PhysicalSize) -> (reconfigure: bool)
        ensures
            *final(self) == old(self).resized(new_size),
            reconfigure == (new_size.width > 0 && new_size.height > 0),
    {
        if new_size.width > 0 && new_size.height > 0 {
            self.size = new_size;
            self.config.width = new_size.width;
            self.config.height = new_size.height;
            true
        } else {
            false
        }
    }

    /// Takes an event of the window. Every event counts as handled, and
    /// none changes the state.
    pub fn input(&mut self, event: &WindowEvent) -> (handled: bool)
        ensures
            handled,
            *final(self) == *old(self),
    {
        true
    }

    /// Brings the state up to date before a frame. There is nothing to
    /// bring up to date.
    pub fn update(&mut self)
        ensures
            *final(self) == *old(self),
    {
    }

    /// Renders a frame into the image that was asked of the surface. Where
    /// the surface gave an image, the frame clears it to the clear colour
    /// and draws the objects; where it gave none, nothing is drawn and the
    /// error is handed on.
    pub fn render(&self, acquired: Result<(), SurfaceError>) -> (rendered: Result<
        Frame,
        SurfaceError,
    >)
        ensures
            match acquired {
                Ok(_) => rendered matches Ok(frame) && frame.draws(
                    self.clear_color,
                    self.objects_vec@.len(),
                    self.objects_count,
                ),
                Err(error) => rendered == Err::<Frame, SurfaceError>(error),
            },
    {
        match acquired {
            Ok(_) => Ok(
                Frame::record(self.clear_color, self.objects_vec.len(), self.objects_count),
            ),
            Err(error) => Err(error),
        }
    }
}

} // verus!
