//! What holds of a browser and its handler after any run of resizes and painted
//! frames.

use vstd::prelude::*;

use crate::browser::BrowserState;
use crate::paint::Paint;
use crate::paint::PaintElementType;
use crate::paint::TextureImport;
use crate::render_handler::CefRenderHandler;
use crate::render_handler::ScaleFactor;

verus! {

/// What can happen to a browser and its handler. A part is free where its lock is
/// not poisoned.
pub enum Event<T, G> {
    /// The view gets another size.
    Resize { width: u32, height: u32, size_free: bool },
    /// The browser has painted.
    Painted {
        element: PaintElementType,
        has_info: bool,
        import: TextureImport<T>,
        bind_group: G,
        texture_free: bool,
        bind_group_free: bool,
    },
}

impl<T, G> Event<T, G> {
    /// No lock is poisoned.
    pub open spec fn undisturbed(self) -> bool {
        match self {
            Event::Resize { size_free, .. } => size_free,
            Event::Painted { texture_free, bind_group_free, .. } => texture_free
                && bind_group_free,
        }
    }

    /// The texture of the event, where it draws a frame.
    pub open spec fn texture(self) -> T
        recommends
            self.draws(),
    {
        self->import->Imported_0
    }

    /// A frame of the page was painted, and its texture imported.
    pub open spec fn draws(self) -> bool {
        match self {
            Event::Resize { .. } => false,
            Event::Painted { element, has_info, import, .. } => has_info && element
                == PaintElementType::View && import is Imported,
        }
    }

    /// It is drawn into a slot that can be locked: that of the texture, or else
    /// that of the bind group.
    pub open spec fn draws_into(self, texture: bool) -> bool {
        self.draws() && if texture {
            self->texture_free
        } else {
            self->bind_group_free
        }
    }
}

/// Event `last` is the last of a run that draws a frame into a slot that can be
/// locked: the slot of the texture, or else that of the bind group.
pub open spec fn is_last_drawn<T, G>(events: Seq<Event<T, G>>, last: int, texture: bool) -> bool {
    &&& 0 <= last < events.len()
    &&& events[last].draws_into(texture)
    &&& forall|i: int| last < i < events.len() ==> !(#[trigger] events[i]).draws_into(texture)
}

/// A browser and the handler it draws through.
#[verifier::ext_equal]
pub struct Session<B, T, G> {
    pub browser: BrowserState<B>,
    pub handler: CefRenderHandler<T, G>,
}

impl<B, T, G> Session<B, T, G> {
    /// A browser as it was created, with the handler it was launched with.
    pub open spec fn started(browser: B, scale: ScaleFactor, width: u32, height: u32) -> Self {
        Session {
            browser: BrowserState { browser, size: (width, height) },
            handler: CefRenderHandler::fresh(scale, (width, height)),
        }
    }

    /// What is left of one event.
    pub open spec fn after(self, event: Event<T, G>) -> Self {
        match event {
            Event::Resize { width, height, size_free } => Session {
                browser: self.browser.resized(width, height),
                handler: if size_free {
                    self.handler.resized(width, height)
                } else {
                    self.handler
                },
            },
            Event::Painted {
                element,
                has_info,
                import,
                bind_group,
                texture_free,
                bind_group_free,
            } => Session {
                handler: Paint::<T, G>::begun(element, has_info).imported(import).stored_in(
                    self.handler,
                    bind_group,
                    texture_free,
                    bind_group_free,
                ),
                ..self
            },
        }
    }

    /// What is left of a run of events.
    pub open spec fn after_all(self, events: Seq<Event<T, G>>) -> Self
        decreases events.len(),
    {
        if events.len() == 0 {
            self
        } else {
            self.after_all(events.drop_last()).after(events.last())
        }
    }
}

/// While no lock is poisoned, texture and bind group are there together, and
/// browser and handler agree on the size of the view.
pub proof fn lemma_undisturbed_state<B, T, G>(
    browser: B,
    scale: ScaleFactor,
    width: u32,
    height: u32,
    events: Seq<Event<T, G>>,
)
    requires
        forall|i: int| 0 <= i < events.len() ==> (#[trigger] events[i]).undisturbed(),
    ensures
        ({
            let session = Session::<B, T, G>::started(browser, scale, width, height).after_all(
                events,
            );
            &&& session.handler.paired()
            &&& crate::browser::in_step(session.browser, session.handler)
        }),
    decreases events.len(),
{
    if events.len() > 0 {
        assert forall|i: int| 0 <= i < events.drop_last().len() implies (
        #[trigger] events.drop_last()[i]).undisturbed() by {
            assert(events[i].undisturbed());
        }
        lemma_undisturbed_state::<B, T, G>(browser, scale, width, height, events.drop_last());
        assert(events[events.len() - 1].undisturbed());
    }
}

/// Whatever happens, poisoned locks included, the browser stays the same and the
/// handler keeps the scale factor it was made with.
pub proof fn lemma_browser_and_scale_stay<B, T, G>(
    browser: B,
    scale: ScaleFactor,
    width: u32,
    height: u32,
    events: Seq<Event<T, G>>,
)
    ensures
        ({
            let session = Session::<B, T, G>::started(browser, scale, width, height).after_all(
                events,
            );
            &&& session.browser.browser == browser
            &&& session.handler.device_scale_factor == scale
        }),
    decreases events.len(),
{
    if events.len() > 0 {
        lemma_browser_and_scale_stay::<B, T, G>(browser, scale, width, height, events.drop_last());
    }
}

/// There is no frame before one was drawn.
pub proof fn lemma_no_frame_before_the_first<B, T, G>(
    browser: B,
    scale: ScaleFactor,
    width: u32,
    height: u32,
    events: Seq<Event<T, G>>,
)
    requires
        forall|i: int| 0 <= i < events.len() ==> !(#[trigger] events[i]).draws(),
    ensures
        ({
            let session = Session::<B, T, G>::started(browser, scale, width, height).after_all(
                events,
            );
            &&& session.handler.current_texture is None
            &&& session.handler.current_bind_group is None
        }),
    decreases events.len(),
{
    if events.len() > 0 {
        assert forall|i: int| 0 <= i < events.drop_last().len() implies !(
        #[trigger] events.drop_last()[i]).draws() by {
            assert(!events[i].draws());
        }
        lemma_no_frame_before_the_first::<B, T, G>(
            browser,
            scale,
            width,
            height,
            events.drop_last(),
        );
        assert(!events[events.len() - 1].draws());
    }
}

/// Once there is a frame there is always one, whatever happens.
pub proof fn lemma_a_frame_stays<B, T, G>(session: Session<B, T, G>, events: Seq<Event<T, G>>)
    ensures
        session.handler.current_texture is Some ==> session.after_all(
            events,
        ).handler.current_texture is Some,
        session.handler.current_bind_group is Some ==> session.after_all(
            events,
        ).handler.current_bind_group is Some,
    decreases events.len(),
{
    if events.len() > 0 {
        lemma_a_frame_stays(session, events.drop_last());
    }
}

/// After any run, the handler holds the texture of the last frame that was drawn
/// while the slot of the texture could be locked, and what it held before where
/// there was none.
pub proof fn lemma_current_texture<B, T, G>(session: Session<B, T, G>, events: Seq<Event<T, G>>)
    ensures
        forall|last: int| #[trigger]
            is_last_drawn(events, last, true) ==> session.after_all(events).handler.current_texture
                == Some(events[last].texture()),
        (forall|i: int| 0 <= i < events.len() ==> !(#[trigger] events[i]).draws_into(true))
            ==> session.after_all(events).handler.current_texture
            == session.handler.current_texture,
    decreases events.len(),
{
    if events.len() > 0 {
        let before = events.drop_last();
        lemma_current_texture(session, before);
        assert(forall|i: int| 0 <= i < before.len() ==> before[i] == events[i]);
        assert(events[events.len() - 1] == events.last());
        assert forall|last: int| #[trigger] is_last_drawn(events, last, true) implies session.after_all(
            events,
        ).handler.current_texture == Some(events[last].texture()) by {
            if last < events.len() - 1 {
                assert(!events[events.len() - 1].draws_into(true));
                assert(is_last_drawn(before, last, true));
            }
        }
        if forall|i: int| 0 <= i < events.len() ==> !(#[trigger] events[i]).draws_into(true) {
            assert(!events[events.len() - 1].draws_into(true));
        }
    }
}

/// After any run, the handler holds the bind group of the last frame that was
/// drawn while the slot of the bind group could be locked, and what it held before
/// where there was none.
pub proof fn lemma_current_bind_group<B, T, G>(session: Session<B, T, G>, events: Seq<Event<T, G>>)
    ensures
        forall|last: int| #[trigger]
            is_last_drawn(events, last, false)
                ==> session.after_all(events).handler.current_bind_group == Some(
                events[last]->bind_group,
            ),
        (forall|i: int| 0 <= i < events.len() ==> !(#[trigger] events[i]).draws_into(false))
            ==> session.after_all(events).handler.current_bind_group
            == session.handler.current_bind_group,
    decreases events.len(),
{
    if events.len() > 0 {
        let before = events.drop_last();
        lemma_current_bind_group(session, before);
        assert(forall|i: int| 0 <= i < before.len() ==> before[i] == events[i]);
        assert(events[events.len() - 1] == events.last());
        assert forall|last: int| #[trigger] is_last_drawn(events, last, false) implies session.after_all(
            events,
        ).handler.current_bind_group == Some(events[last]->bind_group) by {
            if last < events.len() - 1 {
                assert(!events[events.len() - 1].draws_into(false));
                assert(is_last_drawn(before, last, false));
            }
        }
        if forall|i: int| 0 <= i < events.len() ==> !(#[trigger] events[i]).draws_into(false) {
            assert(!events[events.len() - 1].draws_into(false));
        }
    }
}

/// While no lock is poisoned, texture and bind group are both those of the last
/// frame that was drawn.
pub proof fn lemma_last_frame_is_held<B, T, G>(
    session: Session<B, T, G>,
    events: Seq<Event<T, G>>,
    last: int,
)
    requires
        forall|i: int| 0 <= i < events.len() ==> (#[trigger] events[i]).undisturbed(),
        0 <= last < events.len(),
        events[last].draws(),
        forall|i: int| last < i < events.len() ==> !(#[trigger] events[i]).draws(),
    ensures
        session.after_all(events).handler.current_texture == Some(events[last].texture()),
        session.after_all(events).handler.current_bind_group == Some(events[last]->bind_group),
{
    lemma_current_texture(session, events);
    lemma_current_bind_group(session, events);
    assert(events[last].undisturbed());
    assert forall|i: int| last < i < events.len() implies !(#[trigger] events[i]).draws_into(true)
        && !events[i].draws_into(false) by {
        assert(!events[i].draws());
    }
    assert(is_last_drawn(events, last, true));
    assert(is_last_drawn(events, last, false));
}

/// After any run the view has the size of the last resize, in the handler too where
/// that resize could lock it. Without a resize it has the size it had.
pub proof fn lemma_last_size_counts<B, T, G>(
    session: Session<B, T, G>,
    events: Seq<Event<T, G>>,
    last: int,
)
    requires
        -1 <= last < events.len(),
        last >= 0 ==> events[last] is Resize,
        forall|i: int| last < i < events.len() ==> !(#[trigger] events[i] is Resize),
    ensures
        session.after_all(events).browser.size == (if last >= 0 {
            (events[last]->width, events[last]->height)
        } else {
            session.browser.size
        }),
        last >= 0 && events[last]->size_free ==> session.after_all(events).handler.size == (
            events[last]->width,
            events[last]->height,
        ),
        last < 0 ==> session.after_all(events).handler.size == session.handler.size,
    decreases events.len(),
{
    if events.len() > 0 {
        let before = events.drop_last();
        assert(forall|i: int| 0 <= i < before.len() ==> before[i] == events[i]);
        if last < events.len() - 1 {
            assert(!(events[events.len() - 1] is Resize));
            assert forall|i: int| last < i < before.len() implies !(
            #[trigger] before[i] is Resize) by {
                assert(!(events[i] is Resize));
            }
            lemma_last_size_counts(session, before, last);
        }
    }
}

} // verus!
