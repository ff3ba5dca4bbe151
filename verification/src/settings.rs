//! Configuration: what the downloader is set up with, and its defaults.

use crate::text::same_text;
use vstd::prelude::*;
use vstd::string::*;

verus! {

/// One download server: its name and its URL template.
#[derive(Debug, Clone, PartialEq, Eq)]
pub struct ServerEntry {
    pub name: String,
    pub template: String,
}

/// The download servers by name. A name entered twice stands for the
/// template entered last.
#[derive(Debug, Clone, PartialEq, Eq)]
pub struct ServerList {
    entries: Vec<ServerEntry>,
}

/// The map from names to templates that a list of entries stands for.
pub open spec fn servers_of(entries: Seq<ServerEntry>) -> Map<Seq<char>, Seq<char>>
    decreases entries.len(),
{
    if entries.len() == 0 {
        Map::empty()
    } else {
        servers_of(entries.drop_last()).insert(entries.last().name@, entries.last().template@)
    }
}

impl View for ServerList {
    type V = Map<Seq<char>, Seq<char>>;

    closed spec fn view(&self) -> Map<Seq<char>, Seq<char>> {
        servers_of(self.entries@)
    }
}

impl ServerList {
    /// The entries as they were entered.
    pub closed spec fn entries(&self) -> Seq<ServerEntry> {
        self.entries@
    }

    /// A list without servers.
    pub fn new() -> (list: ServerList)
        ensures
            list@ == Map::<Seq<char>, Seq<char>>::empty(),
            list.entries() == Seq::<ServerEntry>::empty(),
    {
        ServerList { entries: Vec::new() }
    }

    /// Enters a server, in place of any server entered under the same name.
    pub fn insert(&mut self, name: String, template: String)
        ensures
            final(self)@ == old(self)@.insert(name@, template@),
            final(self).entries() == old(self).entries().push(ServerEntry { name, template }),
    {
        self.entries.push(ServerEntry { name, template });
        assert(self.entries@.drop_last() =~= old(self).entries@);
    }

    /// The URL template of the server `name`, if there is such a server.
    pub fn get(&self, name: &str) -> (template: Option<&String>)
        ensures
            match template {
                Some(t) => self@.contains_key(name@) && self@[name@] == t@,
                None => !self@.contains_key(name@),
            },
    {
        let mut i: usize = self.entries.len();
        assert(self.entries@.subrange(0, i as int) =~= self.entries@);
        while i > 0
            invariant
                i <= self.entries@.len(),
                servers_of(self.entries@).contains_key(name@) == servers_of(
                    self.entries@.subrange(0, i as int),
                ).contains_key(name@),
                servers_of(self.entries@).contains_key(name@) ==> servers_of(self.entries@)[name@]
                    == servers_of(self.entries@.subrange(0, i as int))[name@],
            decreases i,
        {
            let ghost prefix = self.entries@.subrange(0, i as int);
            assert(prefix.drop_last() =~= self.entries@.subrange(0, i - 1));
            assert(prefix.last() == self.entries@[i - 1]);
            i = i - 1;
            if same_text(self.entries[i].name.as_str(), name) {
                return Some(&self.entries[i].template);
            }
        }
        assert(self.entries@.subrange(0, 0) =~= Seq::<ServerEntry>::empty());
        None
    }

    /// Number of entries made.
    pub fn len(&self) -> (n: usize)
        ensures
            n == self.entries().len(),
    {
        self.entries.len()
    }

    /// The name of the `index`-th entry.
    pub fn name_at(&self, index: usize) -> (name: &String)
        requires
            index < self.entries().len(),
        ensures
            name == self.entries()[index as int].name,
    {
        &self.entries[index].name
    }
}

/// The settings that the downloader runs with.
#[derive(Debug, Clone, PartialEq, Eq)]
pub struct Config {
    pub client_id: u64,
    pub client_secret: String,
    pub search_client: String,
    pub songs_path: String,
    pub number_of_fetch: u32,
    pub selected_server: String,
    pub number_of_simultaneous_downloads: u64,
    pub server: ServerList,
}

/// The search providers that a configuration can name.
#[derive(Debug, Clone, Copy, PartialEq, Eq, Structural)]
pub enum SearchBackend {
    Nerinyan,
    Osu,
    OsuApi,
}

/// A configuration that cannot be used.
#[derive(Debug, Clone, Copy, PartialEq, Eq, Structural)]
pub enum ConfigError {
    /// The configured search provider is none of the known ones.
    UnknownClient,
}

/// The servers that a fresh configuration knows.
pub open spec fn default_servers() -> Map<Seq<char>, Seq<char>> {
    Map::<Seq<char>, Seq<char>>::empty().insert(
        "beatconnect"@,
        "https://beatconnect.io/b/{beatmap_id}"@,
    ).insert("nerinyan"@, "https://api.nerinyan.moe/d/{beatmap_id}"@).insert(
        "osu_direct"@,
        "https://osu.direct/api/d/{beatmap_id}"@,
    ).insert("catboy"@, "https://catboy.best/d/{beatmap_id}"@).insert(
        "osu_ppy"@,
        "https://osu.ppy.sh/beatmapsets/{beatmap_id}/download"@,
    )
}

/// The configuration is the one that a first start offers.
pub open spec fn is_default_config(config: Config) -> bool {
    &&& config.client_id == 0
    &&& config.client_secret@ == Seq::<char>::empty()
    &&& config.search_client@ == "nerinyan"@
    &&& config.songs_path@ == Seq::<char>::empty()
    &&& config.number_of_fetch == 250
    &&& config.selected_server@ == "nerinyan"@
    &&& config.number_of_simultaneous_downloads == 5
    &&& config.server@ == default_servers()
}

/// The search provider that `name` stands for.
pub open spec fn backend_of(name: Seq<char>) -> Result<SearchBackend, ConfigError> {
    if name == "nerinyan"@ {
        Ok(SearchBackend::Nerinyan)
    } else if name == "osu"@ {
        Ok(SearchBackend::Osu)
    } else if name == "osu_api"@ {
        Ok(SearchBackend::OsuApi)
    } else {
        Err(ConfigError::UnknownClient)
    }
}

/// Picks the search provider that a configuration names: `nerinyan`, `osu`
/// or `osu_api`. Any other name is refused.
pub fn search_backend(name: &str) -> (backend: Result<SearchBackend, ConfigError>)
    ensures
        backend == backend_of(name@),
{
    if same_text(name, "nerinyan") {
        Ok(SearchBackend::Nerinyan)
    } else if same_text(name, "osu") {
        Ok(SearchBackend::Osu)
    } else if same_text(name, "osu_api") {
        Ok(SearchBackend::OsuApi)
    } else {
        Err(ConfigError::UnknownClient)
    }
}

impl SearchBackend {
    /// Only the native client signs in, so only it needs the client
    /// identifier and secret.
    pub fn needs_credentials(&self) -> (needed: bool)
        ensures
            needed == (*self == SearchBackend::OsuApi),
    {
        match self {
            SearchBackend::OsuApi => true,
            _ => false,
        }
    }
}

/// The settings under edit at the first start.
#[derive(Debug, Clone, PartialEq, Eq)]
pub struct ConfigApp {
    config: Config,
}

impl ConfigApp {
    /// The settings as they stand.
    pub closed spec fn spec_config(&self) -> Config {
        self.config
    }

    /// Starts from the defaults: the five known servers, `nerinyan` both as
    /// search provider and as download server, 250 items to fetch, five
    /// downloads at a time, no path and no credentials yet.
    pub fn new() -> (app: ConfigApp)
        ensures
            is_default_config(app.spec_config()),
    {
        let mut server = ServerList::new();
        server.insert(
            String::from_str("beatconnect"),
            String::from_str("https://beatconnect.io/b/{beatmap_id}"),
        );
        server.insert(
            String::from_str("nerinyan"),
            String::from_str("https://api.nerinyan.moe/d/{beatmap_id}"),
        );
        server.insert(
            String::from_str("osu_direct"),
            String::from_str("https://osu.direct/api/d/{beatmap_id}"),
        );
        server.insert(
            String::from_str("catboy"),
            String::from_str("https://catboy.best/d/{beatmap_id}"),
        );
        server.insert(
            String::from_str("osu_ppy"),
            String::from_str("https://osu.ppy.sh/beatmapsets/{beatmap_id}/download"),
        );
        proof {
            reveal_strlit("");
            assert(""@ =~= Seq::<char>::empty());
            assert(server@ =~= default_servers());
        }
        ConfigApp {
            config: Config {
                client_id: 0,
                client_secret: String::from_str(""),
                songs_path: String::from_str(""),
                number_of_fetch: 250,
                selected_server: String::from_str("nerinyan"),
                number_of_simultaneous_downloads: 5,
                server,
                search_client: String::from_str("nerinyan"),
            },
        }
    }

    /// The settings as they stand.
    pub fn config(&self) -> (config: &Config)
        ensures
            *config == self.spec_config(),
    {
        &self.config
    }

    /// Hands the settings out.
    pub fn into_config(self) -> (config: Config)
        ensures
            config == self.spec_config(),
    {
        self.config
    }

    /// Chooses the search provider by name.
    pub fn set_search_client(&mut self, name: String)
        ensures
            final(self).spec_config() == (Config { search_client: name, ..old(self).spec_config() }),
    {
        self.config.search_client = name;
    }

    /// Sets the directory that holds the local catalog.
    pub fn set_songs_path(&mut self, path: String)
        ensures
            final(self).spec_config() == (Config { songs_path: path, ..old(self).spec_config() }),
    {
        self.config.songs_path = path;
    }

    /// Sets the credentials of the native client.
    pub fn set_credentials(&mut self, client_id: u64, client_secret: String)
        ensures
            final(self).spec_config() == (Config {
                client_id,
                client_secret,
                ..old(self).spec_config()
            }),
    {
        self.config.client_id = client_id;
        self.config.client_secret = client_secret;
    }
}

} // verus!
