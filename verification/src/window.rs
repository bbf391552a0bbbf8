use vstd::prelude::*;

use crate::episode::{record_data, Episode, EpisodeData, EpisodeObject};
use crate::list_model::ListModel;
use crate::show::{api_show_data, ApiShow, ShowData, ShowObject};

verus! {

/// The top-level screen currently visible to the user. Exactly one is
/// active at any time; it is owned by the coordinator and written only
/// through the transition operation.
#[derive(Clone, Copy, Debug, PartialEq, Eq, Structural)]
pub enum AppView {
    Discover,
    Empty,
    Loading,
    Podcasts,
    ShowDetails,
}

/// A discrete interface event, routed by the coordinator's dispatcher.
pub enum Event {
    /// The discover affordance was activated.
    DiscoverRequested,
    /// The search text changed; carries the whole current query.
    SearchChanged(String),
    /// The podcasts stack switched to the named tab.
    TabSelected(String),
    /// The refresh affordance was activated.
    RefreshRequested,
    /// A discover result was activated at a display position.
    ResultActivated(usize),
    /// Back navigation from the discover screen.
    DiscoverBack,
    /// Back navigation from the show-details screen.
    DetailsBack,
}

/// The outside work the shell must perform after an event was routed: the
/// coordinator itself never blocks.
#[derive(Debug, PartialEq, Eq)]
pub enum Action {
    /// Nothing to perform.
    Nothing,
    /// Ask the feed collaborator for the shows matching the query.
    SearchShows(String),
    /// Ask the repository collaborator for the episode records.
    LoadEpisodes,
}

/// The contents of a sequence of show adapters.
pub open spec fn shows_data(s: Seq<ShowObject>) -> Seq<ShowData> {
    s.map_values(|o: ShowObject| o@)
}

/// The contents of a sequence of episode adapters.
pub open spec fn episodes_data(s: Seq<EpisodeObject>) -> Seq<EpisodeData> {
    s.map_values(|o: EpisodeObject| o@)
}

/// The discover sub-view: search results stream into its bound list model,
/// and result activation resolves against that model.
pub struct DiscoverView {
    model: Option<ListModel<ShowObject>>,
}

impl View for DiscoverView {
    type V = Option<Seq<ShowData>>;

    closed spec fn view(&self) -> Option<Seq<ShowData>> {
        match self.model {
            Option::Some(m) => Option::Some(shows_data(m.contents())),
            Option::None => Option::None,
        }
    }
}

impl DiscoverView {
    /// A fresh sub-view with no model bound yet.
    pub fn new() -> (v: Self)
        ensures
            v@ is None,
    {
        DiscoverView { model: None }
    }

    /// Binds a list model to the view before first use.
    pub fn setup_model(&mut self, model: ListModel<ShowObject>)
        ensures
            final(self)@ == Option::Some(shows_data(model.contents())),
    {
        self.model = Some(model);
    }

    /// Appends one adapted search result; every earlier result keeps its
    /// display position. Without a bound model the result is dropped.
    pub fn append_search_result(&mut self, show: ApiShow)
        ensures
            old(self)@ matches Some(d) ==> final(self)@ == Option::Some(
                d.push(api_show_data(show)),
            ),
            old(self)@ is None ==> final(self)@ == old(self)@,
    {
        match &mut self.model {
            Some(model) => {
                let ghost before = model.contents();
                let object = ShowObject::from_api(show);
                model.append(object);
                proof {
                    assert(shows_data(model.contents()) =~= shows_data(before).push(
                        api_show_data(show),
                    ));
                }
            },
            None => {},
        }
    }

    /// Resolves an activated display position against the current backing
    /// collection: the adapter at that position, or nothing when the
    /// position is stale or no model is bound.
    pub fn resolve(&self, index: usize) -> (r: Option<&ShowObject>)
        ensures
            self@ matches Some(d) ==> {
                &&& (index < d.len() <==> r is Some)
                &&& (r matches Some(s) ==> s@ == d[index as int])
            },
            self@ is None ==> r is None,
    {
        match &self.model {
            Some(model) => model.get(index),
            None => None,
        }
    }
}

/// The episodes sub-view: the library list, repopulated from loaded records.
pub struct EpisodesView {
    model: Option<ListModel<EpisodeObject>>,
}

impl View for EpisodesView {
    type V = Option<Seq<EpisodeData>>;

    closed spec fn view(&self) -> Option<Seq<EpisodeData>> {
        match self.model {
            Option::Some(m) => Option::Some(episodes_data(m.contents())),
            Option::None => Option::None,
        }
    }
}

impl EpisodesView {
    /// A fresh sub-view with no model bound yet.
    pub fn new() -> (v: Self)
        ensures
            v@ is None,
    {
        EpisodesView { model: None }
    }

    /// Binds a list model to the view before first use.
    pub fn setup_model(&mut self, model: ListModel<EpisodeObject>)
        ensures
            final(self)@ == Option::Some(episodes_data(model.contents())),
    {
        self.model = Some(model);
    }

    /// The adapter at a display position, or nothing when the position is
    /// past the end or no model is bound.
    pub fn episode_at(&self, index: usize) -> (r: Option<&EpisodeObject>)
        ensures
            self@ matches Some(d) ==> {
                &&& (index < d.len() <==> r is Some)
                &&& (r matches Some(e) ==> e@ == d[index as int])
            },
            self@ is None ==> r is None,
    {
        match &self.model {
            Some(model) => model.get(index),
            None => None,
        }
    }

    /// Replaces the whole collection with adapters for `records`, in the
    /// order received. Without a bound model the records are dropped.
    pub fn apply_loaded_episodes(&mut self, records: Vec<Episode>)
        ensures
            old(self)@ is Some ==> final(self)@ == Option::Some(
                records@.map_values(|e: Episode| record_data(e)),
            ),
            old(self)@ is None ==> final(self)@ == old(self)@,
    {
        let ghost all = records@;
        let mut records = records;
        let mut objects: Vec<EpisodeObject> = Vec::new();
        while records.len() > 0
            invariant
                all.len() == objects@.len() + records@.len(),
                all =~= all.take(objects@.len() as int) + records@,
                episodes_data(objects@) =~= all.take(objects@.len() as int).map_values(
                    |e: Episode| record_data(e),
                ),
            decreases records@.len(),
        {
            let ghost done = objects@.len() as int;
            let ghost rest = records@;
            let record = records.remove(0);
            objects.push(EpisodeObject::from_record(record));
            proof {
                assert(all =~= all.take(done) + rest);
                assert(all.len() == done + rest.len());
                assert((all.take(done) + rest)[done] == rest[0]);
                assert(all.take(done + 1) =~= all.take(done).push(record));
                assert(all.take(done + 1).map_values(|e: Episode| record_data(e)) =~= all.take(
                    done,
                ).map_values(|e: Episode| record_data(e)).push(record_data(record)));
                assert(episodes_data(objects@) =~= all.take(done + 1).map_values(
                    |e: Episode| record_data(e),
                ));
            }
        }
        proof {
            assert(all.take(objects@.len() as int) =~= all);
        }
        match &mut self.model {
            Some(model) => {
                model.reset_and_populate(objects);
                proof {
                    assert(episodes_data(model.contents()) =~= all.map_values(
                        |e: Episode| record_data(e),
                    ));
                }
            },
            None => {},
        }
    }
}

/// The mathematical state of the coordinator: the active screen, the
/// contents of the two list-backed views (absent until a model is bound),
/// the transient show held by the show-details screen, and whether the
/// refresh affordance is visible.
pub ghost struct WindowModel {
    pub active: AppView,
    pub discover: Option<Seq<ShowData>>,
    pub episodes: Option<Seq<EpisodeData>>,
    pub details: Option<ShowData>,
    pub refresh_visible: bool,
}

/// The screen switch: a total overwrite of the visible screen, never
/// history-aware. The transient show-details reference is released on
/// transition away from the show-details screen; no list model is touched.
pub open spec fn show_view_spec(m: WindowModel, v: AppView) -> WindowModel {
    WindowModel {
        active: v,
        details: if v == AppView::ShowDetails {
            m.details
        } else {
            Option::None
        },
        ..m
    }
}

/// The startup decision: a positive persisted show count leads to the
/// podcasts screen, a zero count to the empty screen.
pub open spec fn startup_spec(m: WindowModel, count: u64) -> WindowModel {
    if count > 0 {
        show_view_spec(m, AppView::Podcasts)
    } else {
        show_view_spec(m, AppView::Empty)
    }
}

/// The application-level view coordinator: owns the active screen, the two
/// list-backed sub-views and the transient show-details reference, and is
/// the only writer of any of them.
pub struct BoltWindow {
    view: AppView,
    discover_view: DiscoverView,
    episodes_view: EpisodesView,
    show_details: Option<ShowObject>,
    refresh_visible: bool,
}

impl View for BoltWindow {
    type V = WindowModel;

    closed spec fn view(&self) -> WindowModel {
        WindowModel {
            active: self.view,
            discover: self.discover_view@,
            episodes: self.episodes_view@,
            details: match self.show_details {
                Option::Some(s) => Option::Some(s@),
                Option::None => Option::None,
            },
            refresh_visible: self.refresh_visible,
        }
    }
}

impl BoltWindow {
    /// The transient show-details reference exists only while the
    /// show-details screen is active.
    pub open spec fn inv(self) -> bool {
        self@.active != AppView::ShowDetails ==> self@.details is None
    }

    /// A freshly constructed coordinator: the loading screen is shown before
    /// any data is available, both sub-views are bound to empty models, and
    /// no show is held for details.
    pub fn new() -> (w: Self)
        ensures
            w@ == (WindowModel {
                active: AppView::Loading,
                discover: Option::Some(Seq::<ShowData>::empty()),
                episodes: Option::Some(Seq::<EpisodeData>::empty()),
                details: Option::None,
                refresh_visible: false,
            }),
            w.inv(),
    {
        let mut window = BoltWindow {
            view: AppView::Loading,
            discover_view: DiscoverView::new(),
            episodes_view: EpisodesView::new(),
            show_details: None,
            refresh_visible: false,
        };
        window.load_shows();
        window.setup_discover();
        window.setup_episodes();
        window
    }

    /// Programmatic screen switch. Switching to the already-active screen is
    /// a no-op, not an error.
    pub fn show_view(&mut self, view: AppView)
        ensures
            final(self)@ == show_view_spec(old(self)@, view),
            final(self).inv(),
    {
        if view != AppView::ShowDetails {
            self.show_details = None;
        }
        self.view = view;
    }

    /// The screen currently visible.
    pub fn active_view(&self) -> (v: AppView)
        ensures
            v == self@.active,
    {
        self.view
    }

    /// The show the show-details screen currently holds.
    pub fn details_show(&self) -> (r: &Option<ShowObject>)
        ensures
            self@.details is Some <==> r is Some,
            r matches Some(s) ==> self@.details == Option::Some(s@),
    {
        &self.show_details
    }

    /// Begins the startup sequence: the loading screen is shown while the
    /// shell runs the blocking show-count load off the interactive thread.
    /// The count comes back through `apply_show_count`, exactly once.
    pub fn load_shows(&mut self)
        ensures
            final(self)@ == show_view_spec(old(self)@, AppView::Loading),
            final(self).inv(),
    {
        self.show_view(AppView::Loading);
    }

    /// Applies the result of the startup show-count load: a positive count
    /// shows the podcasts screen and asks for the episode records, a zero
    /// count shows the empty screen.
    pub fn apply_show_count(&mut self, count: u64) -> (action: Action)
        ensures
            final(self)@ == startup_spec(old(self)@, count),
            count > 0 ==> final(self)@.active == AppView::Podcasts && action
                == Action::LoadEpisodes,
            count == 0 ==> final(self)@.active == AppView::Empty && action == Action::Nothing,
            final(self).inv(),
    {
        if count > 0 {
            self.show_view(AppView::Podcasts);
            Action::LoadEpisodes
        } else {
            self.show_view(AppView::Empty);
            Action::Nothing
        }
    }

    /// Replaces the episode collection with adapters for the loaded records,
    /// in the order received.
    pub fn apply_loaded_episodes(&mut self, records: Vec<Episode>)
        ensures
            old(self)@.episodes is Some ==> final(self)@ == (WindowModel {
                episodes: Option::Some(records@.map_values(|e: Episode| record_data(e))),
                ..old(self)@
            }),
            old(self)@.episodes is None ==> final(self)@ == old(self)@,
            old(self).inv() ==> final(self).inv(),
    {
        self.episodes_view.apply_loaded_episodes(records);
    }

    /// Streams one search result into the discover collection, at the end.
    pub fn append_search_result(&mut self, show: ApiShow)
        ensures
            old(self)@.discover matches Some(d) ==> final(self)@ == (WindowModel {
                discover: Option::Some(d.push(api_show_data(show))),
                ..old(self)@
            }),
            old(self)@.discover is None ==> final(self)@ == old(self)@,
            old(self).inv() ==> final(self).inv(),
    {
        self.discover_view.append_search_result(show);
    }

    /// Routes one interface event. A search query of more than three
    /// characters asks for exactly one feed search with that query; shorter
    /// queries are ignored. An activated discover result transitions to the
    /// show-details screen only when the position resolves against the
    /// current collection; a stale position is dropped silently.
    pub fn dispatch(&mut self, event: Event) -> (action: Action)
        ensures
            match event {
                Event::DiscoverRequested => final(self)@ == show_view_spec(
                    old(self)@,
                    AppView::Discover,
                ) && action == Action::Nothing,
                Event::DiscoverBack => final(self)@ == show_view_spec(
                    old(self)@,
                    AppView::Podcasts,
                ) && action == Action::Nothing,
                Event::DetailsBack => final(self)@ == show_view_spec(
                    old(self)@,
                    AppView::Discover,
                ) && action == Action::Nothing,
                Event::RefreshRequested => final(self)@ == old(self)@ && action
                    == Action::LoadEpisodes,
                Event::SearchChanged(q) => final(self)@ == old(self)@ && action == (if q@.len()
                    > 3 {
                    Action::SearchShows(q)
                } else {
                    Action::Nothing
                }),
                Event::TabSelected(name) => final(self)@ == (WindowModel {
                    refresh_visible: name@ == "episodes"@,
                    ..old(self)@
                }) && action == Action::Nothing,
                Event::ResultActivated(index) => {
                    &&& action == Action::Nothing
                    &&& match old(self)@.discover {
                        Option::Some(d) => {
                            if (index as int) < d.len() {
                                final(self)@ == (WindowModel {
                                    active: AppView::ShowDetails,
                                    details: Option::Some(d[index as int]),
                                    ..old(self)@
                                })
                            } else {
                                final(self)@ == old(self)@
                            }
                        },
                        Option::None => final(self)@ == old(self)@,
                    }
                },
            },
            old(self).inv() ==> final(self).inv(),
    {
        match event {
            Event::DiscoverRequested => {
                self.show_view(AppView::Discover);
                Action::Nothing
            },
            Event::DiscoverBack => {
                self.show_view(AppView::Podcasts);
                Action::Nothing
            },
            Event::DetailsBack => {
                self.show_view(AppView::Discover);
                Action::Nothing
            },
            Event::RefreshRequested => Action::LoadEpisodes,
            Event::SearchChanged(query) => {
                if query.as_str().unicode_len() > 3 {
                    Action::SearchShows(query)
                } else {
                    Action::Nothing
                }
            },
            Event::TabSelected(name) => {
                let target: String = "episodes".to_owned();
                self.refresh_visible = name == target;
                Action::Nothing
            },
            Event::ResultActivated(index) => {
                let resolved: Option<ShowObject> = match self.discover_view.resolve(index) {
                    Some(show) => Some(show.clone()),
                    None => None,
                };
                if let Some(show) = resolved {
                    self.show_details = Some(show);
                    self.show_view(AppView::ShowDetails);
                }
                Action::Nothing
            },
        }
    }

    /// The discover sub-view, for reading.
    pub fn discover(&self) -> (r: &DiscoverView)
        ensures
            r@ == self@.discover,
    {
        &self.discover_view
    }

    /// The episodes sub-view, for reading.
    pub fn episodes(&self) -> (r: &EpisodesView)
        ensures
            r@ == self@.episodes,
    {
        &self.episodes_view
    }

    /// Whether the refresh affordance is visible.
    pub fn refresh_visible(&self) -> (r: bool)
        ensures
            r == self@.refresh_visible,
    {
        self.refresh_visible
    }

    fn setup_discover(&mut self)
        ensures
            final(self)@ == (WindowModel {
                discover: Option::Some(Seq::<ShowData>::empty()),
                ..old(self)@
            }),
    {
        let model = ListModel::<ShowObject>::new();
        self.discover_view.setup_model(model);
        proof {
            assert(shows_data(Seq::<ShowObject>::empty()) =~= Seq::<ShowData>::empty());
        }
    }

    fn setup_episodes(&mut self)
        ensures
            final(self)@ == (WindowModel {
                episodes: Option::Some(Seq::<EpisodeData>::empty()),
                ..old(self)@
            }),
    {
        let model = ListModel::<EpisodeObject>::new();
        self.episodes_view.setup_model(model);
        proof {
            assert(episodes_data(Seq::<EpisodeObject>::empty()) =~= Seq::<EpisodeData>::empty());
        }
    }
}

/// After a screen switch, a read of the active view returns exactly the
/// requested target, for every target.
pub proof fn lemma_show_view_read(m: WindowModel, v: AppView)
    ensures
        show_view_spec(m, v).active == v,
{
}

/// Switching twice in a row to the same target leaves the state of the
/// single switch, and a switch never alters any list model's contents.
pub proof fn lemma_show_view_idempotent(m: WindowModel, v: AppView)
    ensures
        show_view_spec(show_view_spec(m, v), v) == show_view_spec(m, v),
        show_view_spec(m, v).discover == m.discover,
        show_view_spec(m, v).episodes == m.episodes,
{
}

/// The startup decision, for every non-negative count: a positive count
/// ends on the podcasts screen, a zero count on the empty screen, and the
/// list models are untouched either way.
pub proof fn lemma_startup_outcome(m: WindowModel, count: u64)
    ensures
        count > 0 ==> startup_spec(m, count).active == AppView::Podcasts,
        count == 0 ==> startup_spec(m, count).active == AppView::Empty,
        startup_spec(m, count).discover == m.discover,
        startup_spec(m, count).episodes == m.episodes,
{
}

} // verus!
