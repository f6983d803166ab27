use vstd::prelude::*;
use vstd::string::*;
use crate::text::{decimal, decimal_string};

verus! {

/// The query parameters that the endpoints of the service take.
#[derive(Clone, Copy, Debug, PartialEq, Eq, Structural)]
pub enum ParamKey {
    Query,
    Limit,
    Offset,
    Width,
    Data,
    CreatorProfileVisitsLimit,
}

impl ParamKey {
    pub open spec fn spec_name(self) -> Seq<char> {
        match self {
            ParamKey::Query => "q"@,
            ParamKey::Limit => "limit"@,
            ParamKey::Offset => "offset"@,
            ParamKey::Width => "width"@,
            ParamKey::Data => "data"@,
            ParamKey::CreatorProfileVisitsLimit => "creator_profile_visits_limit"@,
        }
    }

    /// The name of the parameter in a query string.
    pub fn name(&self) -> (r: &'static str)
        ensures
            r@ == self.spec_name(),
    {
        match self {
            ParamKey::Query => "q",
            ParamKey::Limit => "limit",
            ParamKey::Offset => "offset",
            ParamKey::Width => "width",
            ParamKey::Data => "data",
            ParamKey::CreatorProfileVisitsLimit => "creator_profile_visits_limit",
        }
    }
}

/// No two parameters share a name, and no name is that of a protocol parameter.
pub proof fn lemma_param_names()
    ensures
        forall|a: ParamKey, b: ParamKey| #[trigger] a.spec_name() == #[trigger] b.spec_name() ==> a == b,
        forall|a: ParamKey| !crate::signing::has_oauth_prefix(#[trigger] a.spec_name()),
{
    reveal_strlit("q");
    reveal_strlit("limit");
    reveal_strlit("offset");
    reveal_strlit("width");
    reveal_strlit("data");
    reveal_strlit("creator_profile_visits_limit");
    reveal_strlit("oauth_");
    assert forall|a: ParamKey| !crate::signing::has_oauth_prefix(#[trigger] a.spec_name()) by {
        let n = a.spec_name();
        if n.len() >= 6 {
            assert(n[0] != 'o' || n[1] != 'a');
            assert(n.subrange(0, 6)[0] == n[0]);
            assert(n.subrange(0, 6)[1] == n[1]);
        }
    }
    assert forall|a: ParamKey, b: ParamKey| #[trigger] a.spec_name() == #[trigger] b.spec_name() implies a == b by {
        let x = a.spec_name();
        let y = b.spec_name();
        if a != b {
            assert(x.len() != y.len() || x[0] != y[0]);
        }
    }
}

/// The value given to `k` in a list of entries, if any.
pub open spec fn value_in(entries: Seq<(ParamKey, Seq<char>)>, k: ParamKey) -> Option<Seq<char>>
    decreases entries.len(),
{
    if entries.len() == 0 {
        None
    } else if entries.last().0 == k {
        Some(entries.last().1)
    } else {
        value_in(entries.drop_last(), k)
    }
}

/// No key occurs twice in a list of entries.
pub open spec fn keys_unique(entries: Seq<(ParamKey, Seq<char>)>) -> bool {
    forall|i: int, j: int|
        0 <= i < j < entries.len() ==> #[trigger] entries[i].0 != #[trigger] entries[j].0
}

spec fn entries_view(v: Seq<(ParamKey, String)>) -> Seq<(ParamKey, Seq<char>)> {
    v.map_values(|e: (ParamKey, String)| (e.0, e.1@))
}

/// A set of query parameters: each key at most once, in the order of first insertion.
#[derive(Clone, Debug)]
pub struct Params {
    entries: Vec<(ParamKey, String)>,
}

impl View for Params {
    type V = Seq<(ParamKey, Seq<char>)>;

    closed spec fn view(&self) -> Seq<(ParamKey, Seq<char>)> {
        entries_view(self.entries@)
    }
}

proof fn lemma_value_in_push(s: Seq<(ParamKey, Seq<char>)>, e: (ParamKey, Seq<char>), k: ParamKey)
    ensures
        value_in(s.push(e), k) == (if e.0 == k { Some(e.1) } else { value_in(s, k) }),
{
    assert(s.push(e).drop_last() =~= s);
}

proof fn lemma_value_in_update(s: Seq<(ParamKey, Seq<char>)>, i: int, v: Seq<char>, k: ParamKey)
    requires
        0 <= i < s.len(),
        keys_unique(s),
    ensures
        value_in(s.update(i, (s[i].0, v)), k) == (if s[i].0 == k { Some(v) } else { value_in(s, k) }),
    decreases s.len(),
{
    let t = s.update(i, (s[i].0, v));
    if i == s.len() - 1 {
        assert(t.drop_last() =~= s.drop_last());
        if s[i].0 != k {
        }
    } else {
        assert(t.drop_last() =~= s.drop_last().update(i, (s[i].0, v)));
        lemma_value_in_update(s.drop_last(), i, v, k);
        assert(s.last().0 != s[i].0);
    }
}

proof fn lemma_value_in_present(s: Seq<(ParamKey, Seq<char>)>, i: int, k: ParamKey)
    requires
        0 <= i < s.len(),
        s[i].0 == k,
    ensures
        value_in(s, k) is Some,
    decreases s.len(),
{
    if s.last().0 != k {
        assert(s.drop_last()[i] == s[i]);
        lemma_value_in_present(s.drop_last(), i, k);
    }
}

proof fn lemma_value_in_absent(s: Seq<(ParamKey, Seq<char>)>, k: ParamKey)
    requires
        forall|j: int| 0 <= j < s.len() ==> #[trigger] s[j].0 != k,
    ensures
        value_in(s, k) is None,
    decreases s.len(),
{
    if s.len() > 0 {
        lemma_value_in_absent(s.drop_last(), k);
    }
}

impl Params {
    pub open spec fn wf(&self) -> bool {
        keys_unique(self@)
    }

    /// The value of `k`, if set.
    pub open spec fn spec_get(&self, k: ParamKey) -> Option<Seq<char>> {
        value_in(self@, k)
    }

    /// An empty set of parameters.
    pub fn new() -> (r: Params)
        ensures
            r.wf(),
            r@.len() == 0,
            forall|k: ParamKey| r.spec_get(k) is None,
    {
        Params { entries: Vec::new() }
    }

    /// Sets `key` to `value`, replacing an earlier value of the same key.
    pub fn insert(&mut self, key: ParamKey, value: String)
        requires
            old(self).wf(),
        ensures
            final(self).wf(),
            final(self).spec_get(key) == Some(value@),
            forall|k: ParamKey| k != key ==> final(self).spec_get(k) == old(self).spec_get(k),
            old(self).spec_get(key) is None ==> final(self)@ == old(self)@.push((key, value@)),
    {
        let n = self.entries.len();
        let mut i: usize = 0;
        while i < n
            invariant
                n == self.entries.len(),
                i <= n,
                self.wf(),
                self@ == old(self)@,
                forall|j: int| 0 <= j < i ==> #[trigger] self.entries@[j].0 != key,
            decreases n - i,
        {
            if self.entries[i].0 == key {
                let ghost before = self@;
                self.entries.set(i, (key, value));
                proof {
                    assert(self@ =~= before.update(i as int, (before[i as int].0, value@)));
                    lemma_value_in_present(before, i as int, key);
                    assert forall|k: ParamKey| #[trigger] value_in(self@, k) == (if before[i as int].0 == k { Some(value@) } else { value_in(before, k) }) by {
                        lemma_value_in_update(before, i as int, value@, k);
                    }
                }
                return;
            }
            i = i + 1;
        }
        let ghost before = self@;
        proof {
            assert forall|j: int| 0 <= j < n implies #[trigger] before[j].0 != key by {
                assert(before[j].0 == self.entries@[j].0);
            }
            lemma_value_in_absent(before, key);
        }
        self.entries.push((key, value));
        proof {
            assert(self@ =~= before.push((key, value@)));
            assert forall|k: ParamKey| #[trigger] value_in(self@, k) == (if key == k { Some(value@) } else { value_in(before, k) }) by {
                lemma_value_in_push(before, (key, value@), k);
            }
        }
    }

    /// A copy of the parameters.
    pub fn clone_params(&self) -> (r: Params)
        ensures
            r@ == self@,
    {
        let mut entries: Vec<(ParamKey, String)> = Vec::new();
        let n = self.entries.len();
        let mut i: usize = 0;
        while i < n
            invariant
                n == self.entries@.len(),
                i <= n,
                entries_view(entries@) == self@.subrange(0, i as int),
            decreases n - i,
        {
            let e = &self.entries[i];
            let ghost before = entries@;
            let v = e.1.clone();
            let ghost item = (e.0, v@);
            entries.push((e.0, v));
            proof {
                assert(entries_view(entries@) =~= entries_view(before).push(item));
                assert(self@.subrange(0, i + 1) =~= self@.subrange(0, i as int).push(self@[i as int]));
                assert(entries_view(entries@) =~= self@.subrange(0, i + 1));
            }
            i = i + 1;
        }
        assert(self@.subrange(0, n as int) =~= self@);
        Params { entries }
    }

    /// The number of parameters set.
    pub fn len(&self) -> (r: usize)
        ensures
            r == self@.len(),
    {
        self.entries.len()
    }

    /// The parameter at position `i`, as its name and value.
    pub fn entry(&self, i: usize) -> (r: (&'static str, String))
        requires
            i < self@.len(),
        ensures
            r.0@ == self@[i as int].0.spec_name(),
            r.1@ == self@[i as int].1,
    {
        let e = &self.entries[i];
        (e.0.name(), e.1.clone())
    }
}

/// The parameters of an endpoint that takes none.
pub struct NoParams(Params);

impl NoParams {
    pub closed spec fn wf(&self) -> bool {
        self.0.wf()
    }

    pub closed spec fn spec_get(&self, k: ParamKey) -> Option<Seq<char>> {
        self.0.spec_get(k)
    }

    pub fn new() -> (r: NoParams)
        ensures
            r.wf(),
            forall|k: ParamKey| r.spec_get(k) is None,
    {
        NoParams(Params::new())
    }

    /// The parameters as a plain set.
    pub fn into_params(self) -> (r: Params)
        requires
            self.wf(),
        ensures
            r.wf(),
            forall|k: ParamKey| r.spec_get(k) == self.spec_get(k),
    {
        self.0
    }
}

/// The paging parameters of a creator's lists.
pub struct CreatorParams(Params);

impl CreatorParams {
    pub closed spec fn wf(&self) -> bool {
        self.0.wf()
    }

    pub closed spec fn spec_get(&self, k: ParamKey) -> Option<Seq<char>> {
        self.0.spec_get(k)
    }

    pub fn new() -> (r: CreatorParams)
        ensures
            r.wf(),
            forall|k: ParamKey| r.spec_get(k) is None,
    {
        CreatorParams(Params::new())
    }

    /// Sets the largest number of entries to return.
    pub fn limit(self, limit: u32) -> (r: CreatorParams)
        requires
            self.wf(),
        ensures
            r.wf(),
            r.spec_get(ParamKey::Limit) == Some(decimal(limit as nat)),
            forall|k: ParamKey| k != ParamKey::Limit ==> r.spec_get(k) == self.spec_get(k),
    {
        let mut p = self.0;
        p.insert(ParamKey::Limit, decimal_string(limit));
        CreatorParams(p)
    }

    /// Sets how many entries to skip.
    pub fn offset(self, offset: u32) -> (r: CreatorParams)
        requires
            self.wf(),
        ensures
            r.wf(),
            r.spec_get(ParamKey::Offset) == Some(decimal(offset as nat)),
            forall|k: ParamKey| k != ParamKey::Offset ==> r.spec_get(k) == self.spec_get(k),
    {
        let mut p = self.0;
        p.insert(ParamKey::Offset, decimal_string(offset));
        CreatorParams(p)
    }

    /// The parameters as a plain set.
    pub fn into_params(self) -> (r: Params)
        requires
            self.wf(),
        ensures
            r.wf(),
            forall|k: ParamKey| r.spec_get(k) == self.spec_get(k),
    {
        self.0
    }
}

/// The parameters of a search.
pub struct SearchParams(Params);

impl SearchParams {
    pub closed spec fn wf(&self) -> bool {
        self.0.wf()
    }

    pub closed spec fn spec_get(&self, k: ParamKey) -> Option<Seq<char>> {
        self.0.spec_get(k)
    }

    pub fn new() -> (r: SearchParams)
        ensures
            r.wf(),
            forall|k: ParamKey| r.spec_get(k) is None,
    {
        SearchParams(Params::new())
    }

    /// Sets the largest number of results.
    pub fn limit(self, limit: u8) -> (r: SearchParams)
        requires
            self.wf(),
        ensures
            r.wf(),
            r.spec_get(ParamKey::Limit) == Some(decimal(limit as nat)),
            forall|k: ParamKey| k != ParamKey::Limit ==> r.spec_get(k) == self.spec_get(k),
    {
        let mut p = self.0;
        p.insert(ParamKey::Limit, decimal_string(limit as u32));
        SearchParams(p)
    }

    /// Sets the text searched for.
    pub fn query(self, query: &str) -> (r: SearchParams)
        requires
            self.wf(),
        ensures
            r.wf(),
            r.spec_get(ParamKey::Query) == Some(query@),
            forall|k: ParamKey| k != ParamKey::Query ==> r.spec_get(k) == self.spec_get(k),
    {
        let mut p = self.0;
        p.insert(ParamKey::Query, String::from_str(query));
        SearchParams(p)
    }

    /// The parameters as a plain set.
    pub fn into_params(self) -> (r: Params)
        requires
            self.wf(),
        ensures
            r.wf(),
            forall|k: ParamKey| r.spec_get(k) == self.spec_get(k),
    {
        self.0
    }
}

/// The parameters of an autocomplete lookup.
pub struct AutocompleteParams(Params);

impl AutocompleteParams {
    pub closed spec fn wf(&self) -> bool {
        self.0.wf()
    }

    pub closed spec fn spec_get(&self, k: ParamKey) -> Option<Seq<char>> {
        self.0.spec_get(k)
    }

    pub fn new() -> (r: AutocompleteParams)
        ensures
            r.wf(),
            forall|k: ParamKey| r.spec_get(k) is None,
    {
        AutocompleteParams(Params::new())
    }

    /// Sets the text to complete.
    pub fn query(self, query: &str) -> (r: AutocompleteParams)
        requires
            self.wf(),
        ensures
            r.wf(),
            r.spec_get(ParamKey::Query) == Some(query@),
            forall|k: ParamKey| k != ParamKey::Query ==> r.spec_get(k) == self.spec_get(k),
    {
        let mut p = self.0;
        p.insert(ParamKey::Query, String::from_str(query));
        AutocompleteParams(p)
    }

    /// The parameters as a plain set.
    pub fn into_params(self) -> (r: Params)
        requires
            self.wf(),
        ensures
            r.wf(),
            forall|k: ParamKey| r.spec_get(k) == self.spec_get(k),
    {
        self.0
    }
}

/// A section of the home feed.
#[derive(Clone, Copy, Debug, PartialEq, Eq, Structural)]
pub enum HomeDataItem {
    NewVideos,
    TvTips,
    CinemaReleases,
    DvdReleases,
    BlurayReleases,
    FilmProfileVisits,
    CreatorProfileVisits,
    Adverts,
}

impl HomeDataItem {
    pub open spec fn spec_name(self) -> Seq<char> {
        match self {
            HomeDataItem::NewVideos => "new_videos"@,
            HomeDataItem::TvTips => "tv_tips"@,
            HomeDataItem::CinemaReleases => "cinema_releases"@,
            HomeDataItem::DvdReleases => "dvd_releases"@,
            HomeDataItem::BlurayReleases => "bluray_releases"@,
            HomeDataItem::FilmProfileVisits => "film_profile_visits"@,
            HomeDataItem::CreatorProfileVisits => "creator_profile_visits"@,
            HomeDataItem::Adverts => "adverts"@,
        }
    }

    /// The name of the section in a request.
    pub fn name(&self) -> (r: &'static str)
        ensures
            r@ == self.spec_name(),
    {
        match self {
            HomeDataItem::NewVideos => "new_videos",
            HomeDataItem::TvTips => "tv_tips",
            HomeDataItem::CinemaReleases => "cinema_releases",
            HomeDataItem::DvdReleases => "dvd_releases",
            HomeDataItem::BlurayReleases => "bluray_releases",
            HomeDataItem::FilmProfileVisits => "film_profile_visits",
            HomeDataItem::CreatorProfileVisits => "creator_profile_visits",
            HomeDataItem::Adverts => "adverts",
        }
    }

    /// The name of the section in a request, as an owned string.
    pub fn to_string(&self) -> (r: String)
        ensures
            r@ == self.spec_name(),
    {
        String::from_str(self.name())
    }
}

/// `s` with `item` at its end, unless `s` holds it already.
pub open spec fn with_item(s: Seq<HomeDataItem>, item: HomeDataItem) -> Seq<HomeDataItem> {
    if s.contains(item) {
        s
    } else {
        s.push(item)
    }
}

/// `s` with every section added, in the order in which they are listed.
pub open spec fn with_all_items(s: Seq<HomeDataItem>) -> Seq<HomeDataItem> {
    with_item(with_item(with_item(with_item(with_item(with_item(with_item(with_item(s,
        HomeDataItem::NewVideos), HomeDataItem::TvTips), HomeDataItem::CinemaReleases),
        HomeDataItem::DvdReleases), HomeDataItem::BlurayReleases),
        HomeDataItem::FilmProfileVisits), HomeDataItem::CreatorProfileVisits),
        HomeDataItem::Adverts)
}

/// The names of the sections, separated by commas.
pub open spec fn joined_names(s: Seq<HomeDataItem>) -> Seq<char>
    decreases s.len(),
{
    if s.len() == 0 {
        Seq::empty()
    } else if s.len() == 1 {
        s[0].spec_name()
    } else {
        joined_names(s.drop_last()) + ","@ + s.last().spec_name()
    }
}

fn contains_item(v: &Vec<HomeDataItem>, item: HomeDataItem) -> (r: bool)
    ensures
        r == v@.contains(item),
{
    let n = v.len();
    let mut i: usize = 0;
    while i < n
        invariant
            n == v@.len(),
            i <= n,
            forall|j: int| 0 <= j < i ==> v@[j] != item,
        decreases n - i,
    {
        if v[i] == item {
            assert(v@[i as int] == item);
            return true;
        }
        i = i + 1;
    }
    false
}

/// The sections asked of the home feed, each at most once, in the order in which
/// they were added.
pub struct HomeData {
    data: Vec<HomeDataItem>,
}

impl View for HomeData {
    type V = Seq<HomeDataItem>;

    closed spec fn view(&self) -> Seq<HomeDataItem> {
        self.data@
    }
}

impl HomeData {
    pub fn new() -> (r: HomeData)
        ensures
            r@ == Seq::<HomeDataItem>::empty(),
    {
        HomeData { data: Vec::new() }
    }

    fn add_if_not_exists(self, item: HomeDataItem) -> (r: HomeData)
        ensures
            r@ == with_item(self@, item),
    {
        if contains_item(&self.data, item) {
            self
        } else {
            let mut data = self.data;
            data.push(item);
            HomeData { data }
        }
    }

    /// Adds every section not yet present.
    pub fn all(self) -> (r: HomeData)
        ensures
            r@ == with_all_items(self@),
    {
        self.new_videos()
            .tv_tips()
            .cinema_releases()
            .dvd_releases()
            .bluray_releases()
            .film_profile_visits()
            .creator_profile_visits()
            .adverts()
    }

    pub fn new_videos(self) -> (r: HomeData)
        ensures
            r@ == with_item(self@, HomeDataItem::NewVideos),
    {
        self.add_if_not_exists(HomeDataItem::NewVideos)
    }

    pub fn tv_tips(self) -> (r: HomeData)
        ensures
            r@ == with_item(self@, HomeDataItem::TvTips),
    {
        self.add_if_not_exists(HomeDataItem::TvTips)
    }

    pub fn cinema_releases(self) -> (r: HomeData)
        ensures
            r@ == with_item(self@, HomeDataItem::CinemaReleases),
    {
        self.add_if_not_exists(HomeDataItem::CinemaReleases)
    }

    pub fn dvd_releases(self) -> (r: HomeData)
        ensures
            r@ == with_item(self@, HomeDataItem::DvdReleases),
    {
        self.add_if_not_exists(HomeDataItem::DvdReleases)
    }

    pub fn bluray_releases(self) -> (r: HomeData)
        ensures
            r@ == with_item(self@, HomeDataItem::BlurayReleases),
    {
        self.add_if_not_exists(HomeDataItem::BlurayReleases)
    }

    pub fn film_profile_visits(self) -> (r: HomeData)
        ensures
            r@ == with_item(self@, HomeDataItem::FilmProfileVisits),
    {
        self.add_if_not_exists(HomeDataItem::FilmProfileVisits)
    }

    pub fn creator_profile_visits(self) -> (r: HomeData)
        ensures
            r@ == with_item(self@, HomeDataItem::CreatorProfileVisits),
    {
        self.add_if_not_exists(HomeDataItem::CreatorProfileVisits)
    }

    pub fn adverts(self) -> (r: HomeData)
        ensures
            r@ == with_item(self@, HomeDataItem::Adverts),
    {
        self.add_if_not_exists(HomeDataItem::Adverts)
    }

    /// The sections as the value of a request parameter: names joined by commas.
    pub fn to_string(&self) -> (r: String)
        ensures
            r@ == joined_names(self@),
    {
        let mut s = String::new();
        let n = self.data.len();
        let mut i: usize = 0;
        while i < n
            invariant
                n == self@.len(),
                i <= n,
                s@ == joined_names(self@.subrange(0, i as int)),
            decreases n - i,
        {
            let ghost pre = self@.subrange(0, i as int);
            let ghost next = self@.subrange(0, i + 1);
            assert(next.drop_last() =~= pre);
            if i > 0 {
                s.append(",");
            }
            s.append(self.data[i].name());
            proof {
                if i == 0 {
                    assert(s@ =~= joined_names(next));
                } else {
                    assert(s@ =~= joined_names(next));
                }
            }
            i = i + 1;
        }
        assert(self@.subrange(0, n as int) =~= self@);
        s
    }
}

/// The parameters of the home feed.
pub struct HomeParams(Params);

impl HomeParams {
    pub closed spec fn wf(&self) -> bool {
        self.0.wf()
    }

    pub closed spec fn spec_get(&self, k: ParamKey) -> Option<Seq<char>> {
        self.0.spec_get(k)
    }

    pub fn new() -> (r: HomeParams)
        ensures
            r.wf(),
            forall|k: ParamKey| r.spec_get(k) is None,
    {
        HomeParams(Params::new())
    }

    /// Sets the sections of the feed to return.
    pub fn data(self, data: HomeData) -> (r: HomeParams)
        requires
            self.wf(),
        ensures
            r.wf(),
            r.spec_get(ParamKey::Data) == Some(joined_names(data@)),
            forall|k: ParamKey| k != ParamKey::Data ==> r.spec_get(k) == self.spec_get(k),
    {
        let mut p = self.0;
        p.insert(ParamKey::Data, data.to_string());
        HomeParams(p)
    }

    /// Sets the largest number of entries per section.
    pub fn limit(self, limit: u32) -> (r: HomeParams)
        requires
            self.wf(),
        ensures
            r.wf(),
            r.spec_get(ParamKey::Limit) == Some(decimal(limit as nat)),
            forall|k: ParamKey| k != ParamKey::Limit ==> r.spec_get(k) == self.spec_get(k),
    {
        let mut p = self.0;
        p.insert(ParamKey::Limit, decimal_string(limit));
        HomeParams(p)
    }

    /// Sets the largest number of creator profile visits.
    pub fn creator_profile_visits_limit(self, limit: u32) -> (r: HomeParams)
        requires
            self.wf(),
        ensures
            r.wf(),
            r.spec_get(ParamKey::CreatorProfileVisitsLimit) == Some(decimal(limit as nat)),
            forall|k: ParamKey|
                k != ParamKey::CreatorProfileVisitsLimit ==> r.spec_get(k) == self.spec_get(k),
    {
        let mut p = self.0;
        p.insert(ParamKey::CreatorProfileVisitsLimit, decimal_string(limit));
        HomeParams(p)
    }

    /// The parameters as a plain set.
    pub fn into_params(self) -> (r: Params)
        requires
            self.wf(),
        ensures
            r.wf(),
            forall|k: ParamKey| r.spec_get(k) == self.spec_get(k),
    {
        self.0
    }
}

/// What a search looks for.
#[derive(Clone, Copy, Debug, PartialEq, Eq, Structural)]
pub enum Search {
    Films,
    Creators,
    Users,
}

impl Search {
    pub open spec fn spec_name(self) -> Seq<char> {
        match self {
            Search::Films => "films"@,
            Search::Creators => "creators"@,
            Search::Users => "users"@,
        }
    }

    /// The name of the kind of search in a request.
    pub fn to_string(&self) -> (r: String)
        ensures
            r@ == self.spec_name(),
    {
        match self {
            Search::Films => String::from_str("films"),
            Search::Creators => String::from_str("creators"),
            Search::Users => String::from_str("users"),
        }
    }
}

} // verus!
