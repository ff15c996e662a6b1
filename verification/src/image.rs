//! A mapping of a hardware image buffer into process memory, tied to the
//! picture it was created from and released deterministically.

use vstd::prelude::*;

use crate::display::count_calls;
use crate::display::lemma_count_calls_push;
use crate::display::Display;
use crate::display::NativeCall;
use crate::error::VaError;
use crate::picture::Picture;

verus! {

/// The native descriptor of an image: its identifiers, dimensions and total
/// byte size. Obtained from the display that owns the surface, either by
/// deriving it from the surface's native format or by an explicit creation
/// call in a chosen pixel format; immutable once made.
#[derive(Clone, Copy, Debug, PartialEq, Eq, Structural)]
pub struct VaImage {
    /// The native identifier of the image itself.
    pub image_id: u32,
    /// The native identifier of the image's pixel buffer, the one that is
    /// mapped and unmapped.
    pub buf: u32,
    /// Width of the image in pixels.
    pub width: u16,
    /// Height of the image in pixels.
    pub height: u16,
    /// Total size in bytes of the image's pixel data.
    pub data_size: u32,
}

/// A mapped image: owns the mapping of a native image's pixel buffer into
/// process memory, made from a synchronized [`Picture`].
///
/// A value of this type owes its display exactly one unmap followed by
/// exactly one destroy; [`Image::destroy`] consumes the value and discharges
/// both, in that order. The type is not `Clone`, so the teardown pair cannot
/// be issued twice for one mapping.
#[derive(Debug)]
pub struct Image {
    /// The handle of the display the image was created from, so teardown
    /// goes through the same session that made the mapping.
    display_handle: u64,
    /// The native descriptor of the mapped image.
    image: VaImage,
    /// The mapped pixel data, `image.data_size` bytes. The surface contents
    /// lie outside this crate's model of the native layer, so the view is
    /// zero-filled.
    data: Vec<u8>,
    /// Whether the descriptor was derived from the surface's native format,
    /// as opposed to created in an explicitly requested pixel format.
    derived: bool,
}

/// A zero-filled vector of `n` bytes.
fn zero_filled(n: usize) -> (v: Vec<u8>)
    ensures
        v@ == Seq::new(n as nat, |i: int| 0u8),
{
    let mut v: Vec<u8> = Vec::new();
    while v.len() < n
        invariant
            v.len() <= n,
            v@ =~= Seq::new(v.len() as nat, |i: int| 0u8),
        decreases n - v.len(),
    {
        v.push(0u8);
    }
    v
}

impl Image {
    /// The handle of the display the image was created from.
    pub closed spec fn spec_display_handle(&self) -> u64 {
        self.display_handle
    }

    /// The native descriptor of the mapped image.
    pub closed spec fn spec_image(&self) -> VaImage {
        self.image
    }

    /// The mapped pixel data.
    pub closed spec fn spec_data(&self) -> Seq<u8> {
        self.data@
    }

    /// Whether the descriptor was derived from the surface's native format.
    pub closed spec fn spec_derived(&self) -> bool {
        self.derived
    }

    /// The mapped view spans exactly the descriptor's byte size.
    pub open spec fn wf(&self) -> bool {
        self.spec_data().len() == self.spec_image().data_size as nat
    }

    /// Maps the image described by `image` and returns the mapping.
    ///
    /// `picture` must be a synchronized picture of the same display, and
    /// `image` a descriptor obtained from that display; `derived` records how
    /// the descriptor was obtained. The map call is issued through `display`.
    ///
    /// On success the returned image owes the display its teardown pair:
    /// unmap then destroy, discharged together by [`Image::destroy`]. On
    /// failure the native image is destroyed here, before the error is
    /// returned, so the caller never owns a half-mapped resource and no
    /// native resource is leaked.
    pub fn new(display: &mut Display, picture: &Picture, image: VaImage, derived: bool) -> (r:
        Result<Image, VaError>)
        requires
            picture.spec_display_handle() == old(display).spec_handle(),
        ensures
            final(display).same_session(old(display)),
            r is Ok <==> old(display).map_succeeds(),
            r is Ok ==> final(display).spec_log() == old(display).spec_log().push(
                NativeCall::MapBuffer { buf: image.buf },
            ),
            r is Ok ==> (r->Ok_0).spec_image() == image,
            r is Ok ==> (r->Ok_0).spec_derived() == derived,
            r is Ok ==> (r->Ok_0).spec_display_handle() == old(display).spec_handle(),
            r is Ok ==> (r->Ok_0).spec_data() == Seq::new(image.data_size as nat, |i: int| 0u8),
            r is Ok ==> (r->Ok_0).wf(),
            r is Err ==> (r->Err_0).status == old(display).spec_map_status(),
            r is Err ==> final(display).spec_log() == old(display).spec_log().push(
                NativeCall::MapBuffer { buf: image.buf },
            ).push(NativeCall::DestroyImage { image_id: image.image_id }),
    {
        match display.map_buffer(image.buf) {
            Ok(_addr) => {
                let data = zero_filled(image.data_size as usize);
                Ok(Image { display_handle: display.handle(), image, data, derived })
            },
            Err(e) => {
                display.destroy_image(image.image_id);
                Err(e)
            },
        }
    }

    /// The native descriptor of this image.
    pub fn image(&self) -> (r: &VaImage)
        ensures
            *r == self.spec_image(),
    {
        &self.image
    }

    /// Whether this image was derived directly from its underlying picture's
    /// native format, as opposed to being a view of that picture in an
    /// explicitly requested pixel format.
    pub fn is_derived(&self) -> (r: bool)
        ensures
            r == self.spec_derived(),
    {
        self.derived
    }

    /// The mapped pixel data, spanning exactly the descriptor's byte size.
    pub fn as_bytes(&self) -> (r: &[u8])
        ensures
            r@ == self.spec_data(),
    {
        self.data.as_slice()
    }

    /// Releases the mapping: issues through `display` — the same display the
    /// image was created from — exactly one unmap of the image's buffer
    /// followed by exactly one destroy of the native image, unconditionally
    /// and in that order. Consumes the image, so the pair is issued once per
    /// mapping.
    pub fn destroy(self, display: &mut Display)
        requires
            old(display).spec_handle() == self.spec_display_handle(),
        ensures
            final(display).same_session(old(display)),
            final(display).spec_log() == old(display).spec_log().push(
                NativeCall::UnmapBuffer { buf: self.spec_image().buf },
            ).push(NativeCall::DestroyImage { image_id: self.spec_image().image_id }),
    {
        display.unmap_buffer(self.image.buf);
        display.destroy_image(self.image.image_id);
    }
}

/// Failure cleanup: a failed construction — whose log, by the contract of
/// [`Image::new`], grows by a map attempt followed by a destroy of the image
/// — issues the destroy for that image exactly once, and no unmap of any
/// buffer. Since no [`Image`] exists afterwards, no teardown pair can follow:
/// the one destroy is all the native layer ever sees for that image.
pub proof fn lemma_failure_cleanup(
    pre: Seq<NativeCall>,
    post: Seq<NativeCall>,
    buf: u32,
    image_id: u32,
)
    requires
        post == pre.push(NativeCall::MapBuffer { buf }).push(
            NativeCall::DestroyImage { image_id },
        ),
    ensures
        count_calls(post, NativeCall::DestroyImage { image_id }) == count_calls(
            pre,
            NativeCall::DestroyImage { image_id },
        ) + 1,
        forall|b: u32|
            count_calls(post, NativeCall::UnmapBuffer { buf: b }) == count_calls(
                pre,
                NativeCall::UnmapBuffer { buf: b },
            ),
{
    let mid = pre.push(NativeCall::MapBuffer { buf });
    lemma_count_calls_push(pre, NativeCall::MapBuffer { buf }, NativeCall::DestroyImage {
        image_id,
    });
    lemma_count_calls_push(mid, NativeCall::DestroyImage { image_id }, NativeCall::DestroyImage {
        image_id,
    });
    assert forall|b: u32|
        count_calls(post, NativeCall::UnmapBuffer { buf: b }) == count_calls(
            pre,
            NativeCall::UnmapBuffer { buf: b },
        ) by {
        lemma_count_calls_push(pre, NativeCall::MapBuffer { buf }, NativeCall::UnmapBuffer { buf: b });
        lemma_count_calls_push(mid, NativeCall::DestroyImage { image_id }, NativeCall::UnmapBuffer { buf: b });
    }
}

/// Teardown ordering: a destruction — whose log, by the contract of
/// [`Image::destroy`], grows by an unmap of the image's buffer followed by a
/// destroy of the image — issues each of the two calls exactly once, with the
/// unmap standing immediately before the destroy.
pub proof fn lemma_teardown_ordering(
    pre: Seq<NativeCall>,
    post: Seq<NativeCall>,
    buf: u32,
    image_id: u32,
)
    requires
        post == pre.push(NativeCall::UnmapBuffer { buf }).push(
            NativeCall::DestroyImage { image_id },
        ),
    ensures
        count_calls(post, NativeCall::UnmapBuffer { buf }) == count_calls(
            pre,
            NativeCall::UnmapBuffer { buf },
        ) + 1,
        count_calls(post, NativeCall::DestroyImage { image_id }) == count_calls(
            pre,
            NativeCall::DestroyImage { image_id },
        ) + 1,
        post.len() == pre.len() + 2,
        post[post.len() - 2] == (NativeCall::UnmapBuffer { buf }),
        post[post.len() - 1] == (NativeCall::DestroyImage { image_id }),
{
    let mid = pre.push(NativeCall::UnmapBuffer { buf });
    lemma_count_calls_push(pre, NativeCall::UnmapBuffer { buf }, NativeCall::UnmapBuffer { buf });
    lemma_count_calls_push(mid, NativeCall::DestroyImage { image_id }, NativeCall::UnmapBuffer {
        buf,
    });
    lemma_count_calls_push(pre, NativeCall::UnmapBuffer { buf }, NativeCall::DestroyImage {
        image_id,
    });
    lemma_count_calls_push(mid, NativeCall::DestroyImage { image_id }, NativeCall::DestroyImage {
        image_id,
    });
}

/// Success lifecycle: over a successful construction followed by its
/// destruction, the native layer sees the map, the unmap and the destroy of
/// the image exactly once each, in that order.
pub proof fn lemma_success_lifecycle(
    pre: Seq<NativeCall>,
    mid: Seq<NativeCall>,
    post: Seq<NativeCall>,
    buf: u32,
    image_id: u32,
)
    requires
        mid == pre.push(NativeCall::MapBuffer { buf }),
        post == mid.push(NativeCall::UnmapBuffer { buf }).push(
            NativeCall::DestroyImage { image_id },
        ),
    ensures
        count_calls(post, NativeCall::MapBuffer { buf }) == count_calls(
            pre,
            NativeCall::MapBuffer { buf },
        ) + 1,
        count_calls(post, NativeCall::UnmapBuffer { buf }) == count_calls(
            pre,
            NativeCall::UnmapBuffer { buf },
        ) + 1,
        count_calls(post, NativeCall::DestroyImage { image_id }) == count_calls(
            pre,
            NativeCall::DestroyImage { image_id },
        ) + 1,
        post.len() == pre.len() + 3,
        post[post.len() - 3] == (NativeCall::MapBuffer { buf }),
        post[post.len() - 2] == (NativeCall::UnmapBuffer { buf }),
        post[post.len() - 1] == (NativeCall::DestroyImage { image_id }),
{
    lemma_count_calls_push(pre, NativeCall::MapBuffer { buf }, NativeCall::MapBuffer { buf });
    lemma_count_calls_push(pre, NativeCall::MapBuffer { buf }, NativeCall::UnmapBuffer { buf });
    lemma_count_calls_push(pre, NativeCall::MapBuffer { buf }, NativeCall::DestroyImage {
        image_id,
    });
    lemma_teardown_ordering(mid, post, buf, image_id);
    let c = NativeCall::MapBuffer { buf };
    let mid2 = mid.push(NativeCall::UnmapBuffer { buf });
    lemma_count_calls_push(mid, NativeCall::UnmapBuffer { buf }, c);
    lemma_count_calls_push(mid2, NativeCall::DestroyImage { image_id }, c);
}

} // verus!
