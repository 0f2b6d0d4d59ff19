//! The application.
use crate::app_state::{AppState, AppStateView};
use crate::closing::{kept, lemma_closing_commutes_with_map, remove_closed};
use crate::images::{decoded, is_cause, DecodeError, ImageType};
use crate::platform::Platform;
use crate::resources::ResourcesView;
use crate::text_cache::TextId;
use crate::window::{
    belongs, FakeCss, FakeWindow, FakeWindowView, NewWindow, Window, WindowView,
};
use glium::SwapBuffersError;
use std::sync::{Arc, Mutex, PoisonError};
use vstd::prelude::*;

verus! {

#[verifier::external_type_specification]
#[verifier::external_body]
pub struct ExSwapBuffersError(glium::SwapBuffersError);

#[verifier::external_type_specification]
#[verifier::external_body]
#[verifier::reject_recursive_types(T)]
pub struct ExPoisonError<T>(std::sync::PoisonError<T>);

/// Why an application stopped without its data.
#[verifier::reject_recursive_types(T)]
pub enum RuntimeError<T> {
    /// Could not swap the display (drawing error).
    GlSwapError(SwapBuffersError),
    /// The data is still in use somewhere else, such as in a task.
    ArcUnlockError,
    /// A task or a deamon panicked while it used the data.
    MutexPoisonError(PoisonError<T>),
}

impl<T> From<PoisonError<T>> for RuntimeError<T> {
    fn from(e: PoisonError<T>) -> (error: Self) {
        RuntimeError::MutexPoisonError(e)
    }
}

impl<T> vstd::std_specs::convert::FromSpecImpl<PoisonError<T>> for RuntimeError<T> {
    open spec fn obeys_from_spec() -> bool {
        true
    }

    open spec fn from_spec(e: PoisonError<T>) -> Self {
        RuntimeError::MutexPoisonError(e)
    }
}

impl<T> From<SwapBuffersError> for RuntimeError<T> {
    fn from(e: SwapBuffersError) -> (error: Self) {
        RuntimeError::GlSwapError(e)
    }
}

impl<T> vstd::std_specs::convert::FromSpecImpl<SwapBuffersError> for RuntimeError<T> {
    open spec fn obeys_from_spec() -> bool {
        true
    }

    open spec fn from_spec(e: SwapBuffersError) -> Self {
        RuntimeError::GlSwapError(e)
    }
}

impl<T> RuntimeError<T> {
    /// What went wrong, in words.
    pub open spec fn text(self) -> Seq<char> {
        match self {
            RuntimeError::GlSwapError(_) => "could not swap the display"@,
            RuntimeError::ArcUnlockError => "the data of the application is still in use"@,
            RuntimeError::MutexPoisonError(_) => "the data of the application is poisoned"@,
        }
    }

    /// Says what went wrong, whatever the data of the application is.
    pub fn message(&self) -> (message: String)
        ensures
            message@ == self.text(),
    {
        let text = match self {
            RuntimeError::GlSwapError(_) => "could not swap the display",
            RuntimeError::ArcUnlockError => "the data of the application is still in use",
            RuntimeError::MutexPoisonError(_) => "the data of the application is poisoned",
        };
        text.to_owned()
    }
}

/// Graphical application that maintains some kind of application state.
#[verifier::reject_recursive_types(T)]
pub struct App<T, P: Platform> {
    /// The graphical windows, indexed by ID.
    windows: Vec<Window<P>>,
    /// The global application state.
    pub app_state: AppState<T, P>,
}

/// What an application holds.
#[verifier::ext_equal]
#[verifier::reject_recursive_types(T)]
pub struct AppView<T, P: Platform> {
    pub windows: Seq<WindowView<P>>,
    pub app_state: AppStateView<T, P>,
}

impl<T, P: Platform> View for App<T, P> {
    type V = AppView<T, P>;

    closed spec fn view(&self) -> AppView<T, P> {
        AppView {
            windows: self.windows@.map_values(|window: Window<P>| window@),
            app_state: self.app_state@,
        }
    }
}

/// `std::sync::Arc::try_unwrap`: gives the value inside, or the same reference back. Which of the
/// two depends on whether other references are alive at that moment, of which nothing is said.
#[verifier::external_body]
fn arc_try_unwrap<T>(data: Arc<Mutex<T>>) -> (unwrapped: Result<Mutex<T>, Arc<Mutex<T>>>)
    ensures
        match unwrapped {
            Ok(mutex) => mutex == *data,
            Err(same) => same == data,
        },
{
    Arc::try_unwrap(data)
}

/// `std::sync::Mutex::into_inner`. Whether the mutex is poisoned, and what it holds, depends on what
/// other threads did with it, of which nothing is said.
#[verifier::external_body]
fn mutex_into_inner<T>(mutex: Mutex<T>) -> Result<T, PoisonError<T>> {
    mutex.into_inner()
}

/// Whether this can come of taking a reference to a mutex apart.
pub closed spec fn can_be_unwrapped_to<T>(
    data: Arc<Mutex<T>>,
    unwrapped: Result<Mutex<T>, Arc<Mutex<T>>>,
) -> bool {
    call_ensures(arc_try_unwrap::<T>, (data,), unwrapped)
}

/// Whether this can come of taking out what a mutex holds.
pub closed spec fn can_hold<T>(mutex: Mutex<T>, inner: Result<T, PoisonError<T>>) -> bool {
    call_ensures(mutex_into_inner::<T>, (mutex,), inner)
}

/// What an application returns, given what came of taking its data out: nothing where the data is
/// still in use, and otherwise what the mutex gave.
pub open spec fn returned<T>(taken: Option<Result<T, PoisonError<T>>>) -> Result<
    T,
    RuntimeError<T>,
> {
    match taken {
        Some(Ok(data)) => Ok(data),
        Some(Err(e)) => Err(RuntimeError::MutexPoisonError(e)),
        None => Err(RuntimeError::ArcUnlockError),
    }
}

/// Whether an application with this data can return this: what comes of taking this very reference
/// apart, and then, where nothing else refers to the data, of taking the data out of this very
/// mutex.
pub open spec fn comes_of<T>(data: Arc<Mutex<T>>, result: Result<T, RuntimeError<T>>) -> bool {
    exists|unwrapped: Result<Mutex<T>, Arc<Mutex<T>>>| #[trigger]
        can_be_unwrapped_to(data, unwrapped) && match unwrapped {
            Ok(mutex) => exists|inner: Result<T, PoisonError<T>>| #[trigger]
                can_hold(mutex, inner) && result == returned(Some(inner)),
            Err(_) => result == returned::<T>(None),
        }
}

/// Taking a reference apart gives the mutex behind it, or the same reference back. So an
/// application returns what its own mutex held, or that the data is still in use.
pub proof fn law_the_data_comes_out_of_its_mutex<T>(
    data: Arc<Mutex<T>>,
    result: Result<T, RuntimeError<T>>,
)
    requires
        comes_of(data, result),
    ensures
        match result {
            Ok(value) => can_hold(*data, Ok(value)),
            Err(RuntimeError::MutexPoisonError(e)) => can_hold(*data, Err(e)),
            Err(RuntimeError::ArcUnlockError) => can_be_unwrapped_to(data, Err(data)),
            Err(RuntimeError::GlSwapError(_)) => false,
        },
{
}

/// Returns what came of taking the data of an application out.
pub fn data_or_error<T>(taken: Option<Result<T, PoisonError<T>>>) -> (result: Result<
    T,
    RuntimeError<T>,
>)
    ensures
        result == returned(taken),
{
    match taken {
        Some(Ok(data)) => Ok(data),
        Some(Err(e)) => Err(RuntimeError::from(e)),
        None => Err(RuntimeError::ArcUnlockError),
    }
}

impl<T, P: Platform> App<T, P> {
    /// Create a new, empty application. This does not open any windows.
    pub fn new(initial_data: T) -> (app: Self)
        ensures
            call_ensures(Mutex::<T>::new, (initial_data,), *app@.app_state.data),
            app@.windows == Seq::<WindowView<P>>::empty(),
            app@.app_state.windows == Seq::<FakeWindowView<P>>::empty(),
            app@.app_state.resources == ResourcesView::<P>::empty(),
            app@.app_state.deamons == Map::<Seq<char>, P::Deamon>::empty(),
            app@.app_state.tasks == Seq::<P::Task>::empty(),
            app@.wf(),
    {
        let app = App { windows: Vec::new(), app_state: AppState::new(initial_data) };
        assert(app@.windows =~= Seq::<WindowView<P>>::empty());
        app
    }

    /// Takes in a window that was created on the screen, or the reason why it was not. If an
    /// application has no windows, the [`run`](#method.run) function will exit immediately.
    pub fn create_window(&mut self, created: Result<NewWindow<P>, P::WindowCreateError>) -> (result:
        Result<(), P::WindowCreateError>)
        ensures
            match created {
                Ok(new) => {
                    let display = final(self)@.app_state.windows.last().read_only_window;
                    &&& result == Ok::<(), P::WindowCreateError>(())
                    &&& cloned::<P::Display>(new.window.display, display)
                    &&& final(self)@ == old(self)@.open_window(new, display)
                },
                Err(e) => result == Err::<(), P::WindowCreateError>(e) && final(self)@ == old(
                    self,
                )@,
            },
            old(self)@.wf() ==> final(self)@.wf(),
    {
        match created {
            Ok(new) => {
                let display = new.window.display.clone();
                self.app_state.push_window(
                    FakeWindow {
                        state: new.state,
                        css: FakeCss::new(),
                        read_only_window: display,
                    },
                );
                self.windows.push(new.window);
                assert(self@ =~= old(self)@.open_window(new, display));
                Ok(())
            },
            Err(e) => Err(e),
        }
    }

    /// Gives the data of the application back.
    ///
    /// The data cannot be had while something else still refers to it, nor after something panicked
    /// while it used the data; the failure says which of the two it is. Which of the cases it is
    /// depends on the other threads, and so does what the data is by then.
    pub fn into_data(self) -> (result: Result<T, RuntimeError<T>>)
        ensures
            comes_of(self@.app_state.data, result),
            !(result matches Err(RuntimeError::GlSwapError(_))),
    {
        let unwrapped = arc_try_unwrap(self.app_state.data);
        assert(can_be_unwrapped_to(self@.app_state.data, unwrapped));
        match unwrapped {
            Ok(mutex) => {
                let inner = mutex_into_inner(mutex);
                assert(can_hold(mutex, inner));
                data_or_error(Some(inner))
            },
            Err(_) => data_or_error(None),
        }
    }

    /// Add an image to the internal resources.
    ///
    /// ## Returns
    ///
    /// - `Ok(Some(()))` if an image with the same ID already exists. It stays as it is, and the new
    ///   one is not decoded.
    /// - `Ok(None)` if the image was added, but didn't exist previously.
    /// - `Err(e)` if the image couldn't be decoded
    pub fn add_image(&mut self, id: String, data: &[u8], image_type: ImageType) -> (added: Result<
        Option<()>,
        DecodeError,
    >)
        ensures
            final(self)@ == old(self)@.with_resources(final(self)@.app_state.resources),
            match added {
                Ok(Some(_)) => old(self)@.app_state.resources.images.contains_key(id@)
                    && final(self)@ == old(self)@,
                Ok(None) => !old(self)@.app_state.resources.images.contains_key(id@) && (decoded(
                    data@,
                    image_type,
                ) matches Some(image) && final(self)@ == old(self)@.with_resources(
                    old(self)@.app_state.resources.add_image(id@, image),
                )),
                Err(e) => !old(self)@.app_state.resources.images.contains_key(id@) && decoded(
                    data@,
                    image_type,
                ) is None && is_cause(data, image_type, e) && final(self)@ == old(self)@,
            },
    {
        self.app_state.add_image(id, data, image_type)
    }

    /// Removes an image from the internal app resources.
    /// Returns `Some` if the image existed and was removed.
    /// If the given ID doesn't exist, this function does nothing and returns `None`.
    pub fn delete_image(&mut self, id: &str) -> (deleted: Option<()>)
        ensures
            deleted is Some == old(self)@.app_state.resources.images.contains_key(id@),
            final(self)@ == old(self)@.with_resources(
                old(self)@.app_state.resources.delete_image(id@),
            ),
    {
        let id = id.to_owned();
        self.app_state.delete_image(&id)
    }

    /// Checks if an image is currently registered and ready-to-use.
    pub fn has_image(&self, id: &str) -> (found: bool)
        ensures
            found == self@.app_state.resources.images.contains_key(id@),
    {
        let id = id.to_owned();
        self.app_state.has_image(&id)
    }

    /// Add a font (TTF or OTF) as a resource, identified by ID, given what came of parsing it.
    ///
    /// ## Returns
    ///
    /// - `Ok(Some(()))` if an font with the same ID already exists. It stays as it is.
    /// - `Ok(None)` if the font was added, but didn't exist previously.
    /// - `Err(e)` if the font couldn't be decoded
    pub fn add_font(&mut self, id: String, font: Result<P::Font, P::FontError>) -> (added: Result<
        Option<()>,
        P::FontError,
    >)
        ensures
            old(self)@.app_state.resources.fonts.contains_key(id@) ==> added == Ok::<
                Option<()>,
                P::FontError,
            >(Some(())) && final(self)@ == old(self)@,
            !old(self)@.app_state.resources.fonts.contains_key(id@) ==> match font {
                Ok(f) => added == Ok::<Option<()>, P::FontError>(None) && final(self)@ == old(
                    self,
                )@.with_resources(old(self)@.app_state.resources.add_font(id@, f)),
                Err(e) => added == Err::<Option<()>, P::FontError>(e) && final(self)@ == old(self)@,
            },
    {
        self.app_state.add_font(id, font)
    }

    /// Checks if a font is currently registered and ready-to-use.
    pub fn has_font(&self, id: String) -> (found: bool)
        ensures
            found == self@.app_state.resources.fonts.contains_key(id@),
    {
        self.app_state.has_font(&id)
    }

    /// Deletes a font from the internal app resources.
    ///
    /// ## Arguments
    ///
    /// - `id`: The stringified ID of the font to remove, e.g. `"Helvetica-Bold"`.
    ///
    /// ## Returns
    ///
    /// - `Some(())` if the font existed and was successfully removed
    /// - `None` if the given ID doesn't exist. In that case, the function does
    ///    nothing.
    ///
    /// NOTE: The font isn't immediately removed, only in the next draw call. After that, the font
    /// needs to be parsed again if it is to be added again. Use with care.
    pub fn delete_font(&mut self, id: String) -> (deleted: Option<()>)
        ensures
            deleted is Some == old(self)@.app_state.resources.fonts.contains_key(id@),
            final(self)@ == old(self)@.with_resources(
                old(self)@.app_state.resources.delete_font(id@),
            ),
    {
        self.app_state.delete_font(id)
    }

    /// Create a deamon. Does nothing if a deamon with the same ID already exists.
    ///
    /// If the deamon was inserted, returns true, otherwise false
    pub fn add_deamon(&mut self, id: String, deamon: P::Deamon) -> (inserted: bool)
        ensures
            inserted == !old(self)@.app_state.deamons.contains_key(id@),
            final(self)@ == (AppView {
                app_state: old(self)@.app_state.add_deamon(id@, deamon),
                ..old(self)@
            }),
    {
        self.app_state.add_deamon(id, deamon)
    }

    /// Remove a currently running deamon from running. Does nothing if there is no deamon with
    /// this ID. Says whether there was one.
    pub fn delete_deamon(&mut self, id: &str) -> (deleted: bool)
        ensures
            deleted == old(self)@.app_state.deamons.contains_key(id@),
            final(self)@ == (AppView {
                app_state: old(self)@.app_state.delete_deamon(id@),
                ..old(self)@
            }),
    {
        let id = id.to_owned();
        self.app_state.delete_deamon(&id)
    }

    /// Stores a text under a new ID.
    pub fn add_text(&mut self, text: String) -> (id: TextId)
        ensures
            id.number() == old(self)@.app_state.resources.texts_issued,
            final(self)@ == old(self)@.with_resources(
                old(self)@.app_state.resources.add_text(id, text@),
            ),
    {
        self.app_state.add_text(text)
    }

    /// Deletes the text with an ID, if there is one.
    pub fn delete_text(&mut self, id: TextId)
        ensures
            final(self)@ == old(self)@.with_resources(
                old(self)@.app_state.resources.delete_text(id),
            ),
    {
        self.app_state.delete_text(id)
    }

    /// Deletes all texts.
    pub fn clear_all_texts(&mut self)
        ensures
            final(self)@ == old(self)@.with_resources(
                old(self)@.app_state.resources.clear_all_texts(),
            ),
    {
        self.app_state.clear_all_texts()
    }

    /// Adds a task that was started. Tasks, once started, cannot be stopped, which is why there is
    /// no `.delete()` function.
    pub fn add_task(&mut self, task: P::Task)
        ensures
            final(self)@ == old(self)@.with_tasks(old(self)@.app_state.tasks.push(task)),
    {
        self.app_state.add_task(task)
    }

    /// The number of open windows.
    pub fn window_count(&self) -> (count: usize)
        ensures
            count == self@.windows.len(),
    {
        self.windows.len()
    }

    /// An open window.
    pub fn window(&self, i: usize) -> (window: &Window<P>)
        requires
            i < self@.windows.len(),
        ensures
            window@ == self@.windows[i as int],
    {
        &self.windows[i]
    }

    /// The number of windows that the user can see and change.
    pub fn user_window_count(&self) -> (count: usize)
        ensures
            count == self@.app_state.windows.len(),
    {
        self.app_state.windows.len()
    }

    /// The number of tasks that were not cleaned up yet.
    pub fn task_count(&self) -> (count: usize)
        ensures
            count == self@.app_state.tasks.len(),
    {
        self.app_state.tasks.len()
    }

    /// The global application state.
    pub fn app_state_ref(&self) -> (state: &AppState<T, P>)
        ensures
            state@ == self@.app_state,
    {
        &self.app_state
    }

    /// The global application state, to be changed.
    pub fn app_state_mut(&mut self) -> (state: &mut AppState<T, P>)
        ensures
            state@ == old(self)@.app_state,
            final(self)@ == (AppView { app_state: final(state)@, ..old(self)@ }),
    {
        &mut self.app_state
    }

    /// Lets the style properties that the user set for a window come into force. The user starts
    /// again without any.
    pub fn hand_over_css(&mut self, i: usize)
        requires
            i < old(self)@.windows.len(),
            i < old(self)@.app_state.windows.len(),
        ensures
            final(self)@ == old(self)@.hand_over_css(i as int),
    {
        let overrides = self.app_state.windows[i].css.take();
        self.windows[i].dynamic_css_overrides = overrides;
        assert(self@ =~= old(self)@.hand_over_css(i as int));
    }

    /// Closes windows. What the user can see and change of them goes along.
    pub fn close_windows(&mut self, closed_windows: &Vec<usize>)
        ensures
            final(self)@ == old(self)@.close_windows(closed_windows@),
    {
        proof {
            lemma_closing_commutes_with_map(
                self.windows@,
                closed_windows@,
                |window: Window<P>| window@,
            );
            lemma_closing_commutes_with_map(
                self.app_state.windows@,
                closed_windows@,
                |window: FakeWindow<P>| window@,
            );
        }
        remove_closed(&mut self.windows, closed_windows);
        remove_closed(&mut self.app_state.windows, closed_windows);
        assert(self@ =~= old(self)@.close_windows(closed_windows@));
    }
}

impl<T, P: Platform> AppView<T, P> {
    /// The same application with other resources.
    pub open spec fn with_resources(self, resources: ResourcesView<P>) -> Self {
        AppView { app_state: AppStateView { resources, ..self.app_state }, ..self }
    }

    /// The same application with one more window, of which the user overrides no style property.
    /// The user gets `display`, a clone of the display of the window.
    pub open spec fn open_window(self, new: NewWindow<P>, display: P::Display) -> Self {
        AppView {
            windows: self.windows.push(new.window@),
            app_state: AppStateView {
                windows: self.app_state.windows.push(
                    (FakeWindowView {
                        state: new.state,
                        css: Map::empty(),
                        read_only_window: display,
                    }),
                ),
                ..self.app_state
            },
        }
    }

    /// Whether the windows and what the user can see and change of them belong together: there are
    /// as many of the ones as of the others, and at each position they are of the same window.
    pub open spec fn wf(self) -> bool {
        &&& self.windows.len() == self.app_state.windows.len()
        &&& forall|i: int|
            0 <= i < self.windows.len() ==> belongs(
                #[trigger] self.app_state.windows[i],
                self.windows[i],
            )
    }

    /// The same application with other tasks.
    pub open spec fn with_tasks(self, tasks: Seq<P::Task>) -> Self {
        AppView { app_state: AppStateView { tasks, ..self.app_state }, ..self }
    }

    /// The style properties that the user set for a window are in force, and the user starts again
    /// without any.
    pub open spec fn hand_over_css(self, i: int) -> Self {
        let fake = self.app_state.windows[i];
        AppView {
            windows: self.windows.update(
                i,
                (WindowView { dynamic_css_overrides: fake.css, ..self.windows[i] }),
            ),
            app_state: (AppStateView {
                windows: self.app_state.windows.update(
                    i,
                    (FakeWindowView { css: Map::empty(), ..fake }),
                ),
                ..self.app_state
            }),
        }
    }

    /// The closed windows are gone, and what the user could see and change of them; the others stay
    /// in order.
    pub open spec fn close_windows(self, closed_windows: Seq<usize>) -> Self {
        AppView {
            windows: kept(self.windows, closed_windows),
            app_state: AppStateView {
                windows: kept(self.app_state.windows, closed_windows),
                ..self.app_state
            },
        }
    }
}

/// An application returns its data only where the data could be taken out; otherwise it says
/// whether the data is still in use or poisoned, with the very error that came of taking it out.
pub proof fn law_what_is_returned<T>(data: T, poison: PoisonError<T>)
    ensures
        returned(Some(Ok(data))) == Ok::<T, RuntimeError<T>>(data),
        returned(Some(Err(poison))) == Err::<T, RuntimeError<T>>(
            RuntimeError::MutexPoisonError(poison),
        ),
        returned::<T>(None) == Err::<T, RuntimeError<T>>(RuntimeError::ArcUnlockError),
{
}

/// A new window and its user's side come last. The user's side has the state of the window, a handle
/// to its display, and overrides nothing. All else stays as it is.
pub proof fn law_a_new_window_comes_last<T, P: Platform>(
    app: AppView<T, P>,
    new: NewWindow<P>,
    display: P::Display,
)
    ensures
        ({
            let after = app.open_window(new, display);
            &&& after.windows.len() == app.windows.len() + 1
            &&& after.windows.last() == new.window@
            &&& after.windows.drop_last() == app.windows
            &&& after.app_state.windows.len() == app.app_state.windows.len() + 1
            &&& after.app_state.windows.last().state == new.state
            &&& after.app_state.windows.last().css.dom() == Set::<Seq<char>>::empty()
            &&& after.app_state.windows.last().read_only_window == display
            &&& after.app_state.windows.drop_last() == app.app_state.windows
            &&& after.app_state.data == app.app_state.data
            &&& after.app_state.resources == app.app_state.resources
            &&& after.app_state.deamons == app.app_state.deamons
            &&& after.app_state.tasks == app.app_state.tasks
        }),
{
    let after = app.open_window(new, display);
    assert(after.windows.drop_last() =~= app.windows);
    assert(after.app_state.windows.drop_last() =~= app.app_state.windows);
    assert(after.app_state.windows.last().css.dom() =~= Set::<Seq<char>>::empty());
}

/// What the user overrode for a window comes into force for that window, and the user starts again
/// without overrides. The other windows and their user's sides stay as they are, and so does all
/// else.
pub proof fn law_overrides_come_into_force_for_one_window<T, P: Platform>(
    app: AppView<T, P>,
    i: int,
    other: int,
)
    requires
        0 <= i < app.windows.len(),
        i < app.app_state.windows.len(),
    ensures
        ({
            let after = app.hand_over_css(i);
            &&& after.windows.len() == app.windows.len()
            &&& after.app_state.windows.len() == app.app_state.windows.len()
            &&& after.windows[i].dynamic_css_overrides == app.app_state.windows[i].css
            &&& after.windows[i].native == app.windows[i].native
            &&& after.windows[i].display == app.windows[i].display
            &&& after.app_state.windows[i].css.dom() == Set::<Seq<char>>::empty()
            &&& after.app_state.windows[i].state == app.app_state.windows[i].state
            &&& after.app_state.windows[i].read_only_window
                == app.app_state.windows[i].read_only_window
            &&& 0 <= other < app.windows.len() && other != i ==> after.windows[other]
                == app.windows[other]
            &&& 0 <= other < app.app_state.windows.len() && other != i
                ==> after.app_state.windows[other] == app.app_state.windows[other]
            &&& after.app_state.data == app.app_state.data
            &&& after.app_state.resources == app.app_state.resources
            &&& after.app_state.deamons == app.app_state.deamons
            &&& after.app_state.tasks == app.app_state.tasks
        }),
{
    assert(app.hand_over_css(i).app_state.windows[i].css.dom() =~= Set::<Seq<char>>::empty());
}

/// Closing windows touches the windows and their user's sides, and nothing else of the application.
/// With other resources or other tasks, an application is otherwise the same.
pub proof fn law_what_else_an_application_keeps<T, P: Platform>(
    app: AppView<T, P>,
    closed: Seq<usize>,
    resources: ResourcesView<P>,
    tasks: Seq<P::Task>,
)
    ensures
        app.close_windows(closed).windows == kept(app.windows, closed),
        app.close_windows(closed).app_state.windows == kept(app.app_state.windows, closed),
        app.close_windows(closed).app_state.data == app.app_state.data,
        app.close_windows(closed).app_state.resources == app.app_state.resources,
        app.close_windows(closed).app_state.deamons == app.app_state.deamons,
        app.close_windows(closed).app_state.tasks == app.app_state.tasks,
        app.with_resources(resources).app_state.resources == resources,
        app.with_resources(resources).windows == app.windows,
        app.with_resources(resources).app_state.data == app.app_state.data,
        app.with_resources(resources).app_state.windows == app.app_state.windows,
        app.with_resources(resources).app_state.deamons == app.app_state.deamons,
        app.with_resources(resources).app_state.tasks == app.app_state.tasks,
        app.with_tasks(tasks).app_state.tasks == tasks,
        app.with_tasks(tasks).windows == app.windows,
        app.with_tasks(tasks).app_state.data == app.app_state.data,
        app.with_tasks(tasks).app_state.windows == app.app_state.windows,
        app.with_tasks(tasks).app_state.resources == app.app_state.resources,
        app.with_tasks(tasks).app_state.deamons == app.app_state.deamons,
{
}

/// Whatever can come of taking the data out can be returned: the data itself, that it is poisoned,
/// or, where it is still referred to, that it is in use.
pub proof fn law_whatever_comes_out_can_be_returned<T>(
    data: Arc<Mutex<T>>,
    mutex: Mutex<T>,
    inner: Result<T, PoisonError<T>>,
)
    ensures
        can_be_unwrapped_to(data, Ok(mutex)) && can_hold(mutex, inner) ==> match inner {
            Ok(value) => comes_of(data, Ok(value)),
            Err(e) => comes_of(data, Err(RuntimeError::MutexPoisonError(e))),
        },
        can_be_unwrapped_to(data, Err(data)) ==> comes_of(
            data,
            Err::<T, RuntimeError<T>>(RuntimeError::ArcUnlockError),
        ),
{
}

/// The messages tell the three failures apart.
pub proof fn law_messages_tell_failures_apart<T>(a: RuntimeError<T>, b: RuntimeError<T>)
    ensures
        a.text() == b.text() <==> (a is GlSwapError == b is GlSwapError && a is ArcUnlockError
            == b is ArcUnlockError),
{
    reveal_strlit("could not swap the display");
    assert("could not swap the display"@.len() == 26);
    reveal_strlit("the data of the application is still in use");
    assert("the data of the application is still in use"@.len() == 43);
    reveal_strlit("the data of the application is poisoned");
    assert("the data of the application is poisoned"@.len() == 39);
}

/// Where windows and user's sides belong together, there are as many of the ones as of the others,
/// and each user's side has a clone of the display of its window.
pub proof fn law_user_sides_have_the_displays_of_their_windows<T, P: Platform>(
    app: AppView<T, P>,
    i: int,
)
    requires
        app.wf(),
        0 <= i < app.windows.len(),
    ensures
        app.app_state.windows.len() == app.windows.len(),
        cloned::<P::Display>(app.windows[i].display, app.app_state.windows[i].read_only_window),
{
    assert(belongs(app.app_state.windows[i], app.windows[i]));
}

} // verus!
