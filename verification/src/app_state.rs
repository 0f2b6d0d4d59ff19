//! The state that an application shares with its callbacks, deamons and tasks.
use crate::images::{decoded, is_cause, DecodeError, ImageType};
use crate::platform::Platform;
use crate::registry::Registry;
use crate::resources::{AppResources, ResourcesView};
use crate::text_cache::TextId;
use crate::window::{FakeWindow, FakeWindowView};
use std::sync::{Arc, Mutex};
use vstd::prelude::*;

verus! {

#[verifier::external_type_specification]
#[verifier::external_body]
#[verifier::reject_recursive_types(T)]
pub struct ExMutex<T: ?Sized>(std::sync::Mutex<T>);

/// `std::sync::Mutex::new`. What a mutex holds changes under the hands of other threads, so nothing
/// is said of the new mutex here.
pub assume_specification<T>[ std::sync::Mutex::<T>::new ](t: T) -> (mutex: std::sync::Mutex<T>);

/// The state that an application shares with its callbacks, deamons and tasks.
#[verifier::reject_recursive_types(T)]
pub struct AppState<T, P: Platform> {
    /// The data model of the application.
    pub data: Arc<Mutex<T>>,
    /// What the user can see and change of the windows.
    pub windows: Vec<FakeWindow<P>>,
    /// The images, fonts and texts.
    pub resources: AppResources<P>,
    /// The deamons, by their ID.
    pub deamons: Registry<P::Deamon>,
    /// The tasks that were started and not cleaned up yet.
    pub tasks: Vec<P::Task>,
}

/// What the state of an application holds.
#[verifier::ext_equal]
#[verifier::reject_recursive_types(T)]
pub struct AppStateView<T, P: Platform> {
    pub data: Arc<Mutex<T>>,
    pub windows: Seq<FakeWindowView<P>>,
    pub resources: ResourcesView<P>,
    pub deamons: Map<Seq<char>, P::Deamon>,
    pub tasks: Seq<P::Task>,
}

impl<T, P: Platform> View for AppState<T, P> {
    type V = AppStateView<T, P>;

    open spec fn view(&self) -> AppStateView<T, P> {
        AppStateView {
            data: self.data,
            windows: self.windows@.map_values(|window: FakeWindow<P>| window@),
            resources: self.resources@,
            deamons: self.deamons@,
            tasks: self.tasks@,
        }
    }
}

impl<T, P: Platform> AppStateView<T, P> {
    /// A deamon is registered under an ID that is free; under one that is taken, nothing changes.
    pub open spec fn add_deamon(self, id: Seq<char>, deamon: P::Deamon) -> Self {
        if self.deamons.contains_key(id) {
            self
        } else {
            AppStateView { deamons: self.deamons.insert(id, deamon), ..self }
        }
    }

    /// The deamon under an ID is gone.
    pub open spec fn delete_deamon(self, id: Seq<char>) -> Self {
        AppStateView { deamons: self.deamons.remove(id), ..self }
    }
}

/// The tasks that are still running, in order.
pub open spec fn unfinished<K>(tasks: Seq<K>, finished: Seq<bool>) -> Seq<K>
    decreases tasks.len(),
{
    if tasks.len() == 0 {
        Seq::empty()
    } else {
        (if finished[0] {
            Seq::empty()
        } else {
            seq![tasks[0]]
        }) + unfinished(tasks.drop_first(), finished.drop_first())
    }
}

impl<T, P: Platform> AppState<T, P> {
    /// The state of an application that has only its data.
    pub fn new(initial_data: T) -> (state: Self)
        ensures
            call_ensures(Mutex::<T>::new, (initial_data,), *state@.data),
            state@.windows == Seq::<FakeWindowView<P>>::empty(),
            state@.resources == ResourcesView::<P>::empty(),
            state@.deamons == Map::<Seq<char>, P::Deamon>::empty(),
            state@.tasks == Seq::<P::Task>::empty(),
    {
        let state = AppState {
            data: Arc::new(Mutex::new(initial_data)),
            windows: Vec::new(),
            resources: AppResources::new(),
            deamons: Registry::new(),
            tasks: Vec::new(),
        };
        assert(state@.windows =~= Seq::<FakeWindowView<P>>::empty());
        state
    }

    /// Adds what the user can see of a new window.
    pub fn push_window(&mut self, window: FakeWindow<P>)
        ensures
            final(self)@ == (AppStateView {
                windows: old(self)@.windows.push(window@),
                ..old(self)@
            }),
    {
        self.windows.push(window);
        assert(self@.windows =~= old(self)@.windows.push(window@));
    }

    /// See [`AppResources::add_image`].
    pub fn add_image(&mut self, id: String, data: &[u8], image_type: ImageType) -> (added: Result<
        Option<()>,
        DecodeError,
    >)
        ensures
            final(self)@ == (AppStateView { resources: final(self)@.resources, ..old(self)@ }),
            match added {
                Ok(Some(_)) => old(self)@.resources.images.contains_key(id@)
                    && final(self)@.resources == old(self)@.resources,
                Ok(None) => !old(self)@.resources.images.contains_key(id@) && (decoded(
                    data@,
                    image_type,
                ) matches Some(image) && final(self)@.resources == old(self)@.resources.add_image(
                    id@,
                    image,
                )),
                Err(e) => !old(self)@.resources.images.contains_key(id@) && decoded(
                    data@,
                    image_type,
                ) is None && is_cause(data, image_type, e) && final(self)@.resources == old(self)@.resources,
            },
    {
        self.resources.add_image(id, data, image_type)
    }

    /// See [`AppResources::delete_image`].
    pub fn delete_image(&mut self, id: &String) -> (deleted: Option<()>)
        ensures
            deleted is Some == old(self)@.resources.images.contains_key(id@),
            final(self)@ == (AppStateView {
                resources: old(self)@.resources.delete_image(id@),
                ..old(self)@
            }),
    {
        self.resources.delete_image(id)
    }

    /// See [`AppResources::has_image`].
    pub fn has_image(&self, id: &String) -> (found: bool)
        ensures
            found == self@.resources.images.contains_key(id@),
    {
        self.resources.has_image(id)
    }

    /// See [`AppResources::add_font`].
    pub fn add_font(&mut self, id: String, font: Result<P::Font, P::FontError>) -> (added: Result<
        Option<()>,
        P::FontError,
    >)
        ensures
            final(self)@ == (AppStateView { resources: final(self)@.resources, ..old(self)@ }),
            old(self)@.resources.fonts.contains_key(id@) ==> added == Ok::<
                Option<()>,
                P::FontError,
            >(Some(())) && final(self)@.resources == old(self)@.resources,
            !old(self)@.resources.fonts.contains_key(id@) ==> match font {
                Ok(f) => added == Ok::<Option<()>, P::FontError>(None) && final(self)@.resources
                    == old(self)@.resources.add_font(id@, f),
                Err(e) => added == Err::<Option<()>, P::FontError>(e) && final(self)@.resources
                    == old(self)@.resources,
            },
    {
        self.resources.add_font(id, font)
    }

    /// See [`AppResources::has_font`].
    pub fn has_font(&self, id: &String) -> (found: bool)
        ensures
            found == self@.resources.fonts.contains_key(id@),
    {
        self.resources.has_font(id)
    }

    /// See [`AppResources::delete_font`].
    pub fn delete_font(&mut self, id: String) -> (deleted: Option<()>)
        ensures
            deleted is Some == old(self)@.resources.fonts.contains_key(id@),
            final(self)@ == (AppStateView {
                resources: old(self)@.resources.delete_font(id@),
                ..old(self)@
            }),
    {
        self.resources.delete_font(id)
    }

    /// Creates a deamon. Does nothing if a deamon with the same ID already exists.
    ///
    /// If the deamon was inserted, returns true, otherwise false.
    pub fn add_deamon(&mut self, id: String, deamon: P::Deamon) -> (inserted: bool)
        ensures
            inserted == !old(self)@.deamons.contains_key(id@),
            final(self)@ == old(self)@.add_deamon(id@, deamon),
    {
        self.deamons.insert(id, deamon)
    }

    /// Removes a deamon. Says whether there was one with this ID.
    pub fn delete_deamon(&mut self, id: &String) -> (deleted: bool)
        ensures
            deleted == old(self)@.deamons.contains_key(id@),
            final(self)@ == old(self)@.delete_deamon(id@),
    {
        self.deamons.remove(id).is_some()
    }

    /// See [`AppResources::add_text`].
    pub fn add_text(&mut self, text: String) -> (id: TextId)
        ensures
            id.number() == old(self)@.resources.texts_issued,
            final(self)@ == (AppStateView {
                resources: old(self)@.resources.add_text(id, text@),
                ..old(self)@
            }),
    {
        self.resources.add_text(text)
    }

    /// See [`AppResources::delete_text`].
    pub fn delete_text(&mut self, id: TextId)
        ensures
            final(self)@ == (AppStateView {
                resources: old(self)@.resources.delete_text(id),
                ..old(self)@
            }),
    {
        self.resources.delete_text(id)
    }

    /// See [`AppResources::clear_all_texts`].
    pub fn clear_all_texts(&mut self)
        ensures
            final(self)@ == (AppStateView {
                resources: old(self)@.resources.clear_all_texts(),
                ..old(self)@
            }),
    {
        self.resources.clear_all_texts()
    }

    /// Adds a task that was started. Tasks, once started, cannot be stopped, which is why there is
    /// no function to delete one.
    pub fn add_task(&mut self, task: P::Task)
        ensures
            final(self)@ == (AppStateView { tasks: old(self)@.tasks.push(task), ..old(self)@ }),
    {
        self.tasks.push(task)
    }

    /// Removes the tasks that are finished. The others keep their order.
    pub fn clean_up_finished_tasks(&mut self, finished: &Vec<bool>)
        requires
            finished@.len() == old(self)@.tasks.len(),
        ensures
            final(self)@ == (AppStateView {
                tasks: unfinished(old(self)@.tasks, finished@),
                ..old(self)@
            }),
    {
        let ghost tasks = self.tasks@;
        let mut i: usize = self.tasks.len();
        assert(tasks.take(i as int) + unfinished(tasks.skip(i as int), finished@.skip(i as int))
            =~= tasks);
        while i > 0
            invariant
                i <= tasks.len() == finished@.len(),
                tasks == old(self)@.tasks,
                self.tasks@ == tasks.take(i as int) + unfinished(
                    tasks.skip(i as int),
                    finished@.skip(i as int),
                ),
                self.data == old(self).data,
                self.windows == old(self).windows,
                self.resources == old(self).resources,
                self.deamons == old(self).deamons,
            decreases i,
        {
            let ghost after = i as int;
            i = i - 1;
            assert(tasks.skip(i as int).drop_first() =~= tasks.skip(after));
            assert(finished@.skip(i as int).drop_first() =~= finished@.skip(after));
            if finished[i] {
                let _ = self.tasks.remove(i);
            }
            assert(self.tasks@ =~= tasks.take(i as int) + unfinished(
                tasks.skip(i as int),
                finished@.skip(i as int),
            ));
        }
        assert(tasks.skip(0) =~= tasks);
        assert(finished@.skip(0) =~= finished@);
        assert(self.tasks@ =~= unfinished(tasks, finished@));
    }
}

/// Adding a deamon under an ID that is taken changes nothing; deleting one under an ID that is free
/// changes nothing; and deleting a deamon that was added under a free ID undoes the addition.
pub proof fn law_adding_and_deleting_deamons<T, P: Platform>(
    state: AppStateView<T, P>,
    id: Seq<char>,
    deamon: P::Deamon,
)
    ensures
        state.deamons.contains_key(id) ==> state.add_deamon(id, deamon) == state,
        !state.deamons.contains_key(id) ==> state.delete_deamon(id) == state,
        !state.deamons.contains_key(id) ==> state.add_deamon(id, deamon).delete_deamon(id) == state,
{
    if !state.deamons.contains_key(id) {
        assert(state.delete_deamon(id) =~= state);
        assert(state.add_deamon(id, deamon).delete_deamon(id) =~= state);
    }
}

/// Cleaning up removes no task that is still running, and nothing but finished tasks.
pub proof fn law_only_finished_tasks_are_removed<K>(tasks: Seq<K>, finished: Seq<bool>, task: K)
    requires
        finished.len() == tasks.len(),
    ensures
        unfinished(tasks, finished).contains(task) <==> exists|i: int|
            0 <= i < tasks.len() && !finished[i] && #[trigger] tasks[i] == task,
    decreases tasks.len(),
{
    let left = unfinished(tasks, finished);
    if tasks.len() > 0 {
        let rest = tasks.drop_first();
        let rest_finished = finished.drop_first();
        let rest_left = unfinished(rest, rest_finished);
        law_only_finished_tasks_are_removed(rest, rest_finished, task);
        let offset: int = if finished[0] {
            0
        } else {
            1
        };
        if left.contains(task) {
            let k = choose|k: int| 0 <= k < left.len() && left[k] == task;
            if k < offset {
                assert(tasks[0] == task);
            } else {
                assert(rest_left[k - offset] == task);
                let i = choose|i: int|
                    0 <= i < rest.len() && !rest_finished[i] && #[trigger] rest[i] == task;
                assert(tasks[i + 1] == task && !finished[i + 1]);
            }
        }
        if exists|i: int| 0 <= i < tasks.len() && !finished[i] && #[trigger] tasks[i] == task {
            let i = choose|i: int|
                0 <= i < tasks.len() && !finished[i] && #[trigger] tasks[i] == task;
            if i == 0 {
                assert(left[0] == task);
            } else {
                assert(rest[i - 1] == task && !rest_finished[i - 1]);
                let k = choose|k: int| 0 <= k < rest_left.len() && rest_left[k] == task;
                assert(left[k + offset] == task);
            }
        }
    }
}

/// What becomes of a task depends on that task alone, and the tasks that are left keep their order:
/// two lists of tasks can be cleaned up together or one after the other.
pub proof fn law_tasks_are_cleaned_up_one_by_one<K>(
    first: Seq<K>,
    first_finished: Seq<bool>,
    second: Seq<K>,
    second_finished: Seq<bool>,
    task: K,
)
    requires
        first.len() == first_finished.len(),
        second.len() == second_finished.len(),
    ensures
        unfinished(Seq::<K>::empty(), Seq::<bool>::empty()) == Seq::<K>::empty(),
        unfinished(seq![task], seq![true]) == Seq::<K>::empty(),
        unfinished(seq![task], seq![false]) == seq![task],
        unfinished(first + second, first_finished + second_finished) == unfinished(
            first,
            first_finished,
        ) + unfinished(second, second_finished),
    decreases first.len(),
{
    assert(seq![task].drop_first() =~= Seq::<K>::empty());
    assert(seq![true].drop_first() =~= Seq::<bool>::empty());
    assert(seq![false].drop_first() =~= Seq::<bool>::empty());
    assert(unfinished(seq![task].drop_first(), Seq::<bool>::empty()) == Seq::<K>::empty());
    assert(unfinished(seq![task], seq![true]) =~= Seq::<K>::empty());
    assert(unfinished(seq![task], seq![false]) =~= seq![task]);
    let both = first + second;
    let both_finished = first_finished + second_finished;
    if first.len() == 0 {
        assert(both =~= second);
        assert(both_finished =~= second_finished);
        assert(unfinished(both, both_finished) =~= unfinished(first, first_finished) + unfinished(
            second,
            second_finished,
        ));
    } else {
        assert(both.drop_first() =~= first.drop_first() + second);
        assert(both_finished.drop_first() =~= first_finished.drop_first() + second_finished);
        law_tasks_are_cleaned_up_one_by_one(
            first.drop_first(),
            first_finished.drop_first(),
            second,
            second_finished,
            task,
        );
        assert(unfinished(both, both_finished) =~= unfinished(first, first_finished) + unfinished(
            second,
            second_finished,
        ));
    }
}

/// A deamon that was added under a free ID is there, and one that was deleted is not. The other
/// deamons stay as they are, and so does all else.
pub proof fn law_deamons_do_not_disturb_each_other<T, P: Platform>(
    state: AppStateView<T, P>,
    id: Seq<char>,
    deamon: P::Deamon,
    other: Seq<char>,
)
    ensures
        state.add_deamon(id, deamon).deamons.contains_key(id),
        !state.deamons.contains_key(id) ==> state.add_deamon(id, deamon).deamons[id] == deamon,
        !state.delete_deamon(id).deamons.contains_key(id),
        other != id ==> {
            &&& state.add_deamon(id, deamon).deamons.contains_key(other)
                == state.deamons.contains_key(other)
            &&& state.delete_deamon(id).deamons.contains_key(other) == state.deamons.contains_key(
                other,
            )
            &&& state.deamons.contains_key(other) ==> state.add_deamon(id, deamon).deamons[other]
                == state.deamons[other] && state.delete_deamon(id).deamons[other]
                == state.deamons[other]
        },
        state.add_deamon(id, deamon).data == state.data,
        state.add_deamon(id, deamon).windows == state.windows,
        state.add_deamon(id, deamon).resources == state.resources,
        state.add_deamon(id, deamon).tasks == state.tasks,
        state.delete_deamon(id).data == state.data,
        state.delete_deamon(id).windows == state.windows,
        state.delete_deamon(id).resources == state.resources,
        state.delete_deamon(id).tasks == state.tasks,
{
}

} // verus!
