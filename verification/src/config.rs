//! The configuration of the bus: pools of workers, limits and routing.

use crate::message;
use crate::string_map::StringMap;
use crate::text::{self, join, replace_all};
use vstd::prelude::*;

verus! {

/// A pool of workers that run the same command.
#[derive(Debug)]
pub struct PoolConfig {
    pub id: String,
    pub command: String,
    pub args: Vec<String>,
    pub instances: u32,
    pub env: StringMap<String>,
    pub cwd: Option<String>,
}

/// The limits that the bus keeps.
#[derive(Debug, Clone, Copy)]
pub struct LimitsConfig {
    pub max_input_buffer: usize,
    pub max_output_queue: usize,
    pub max_restarts: u32,
    pub restart_window_sec: u32,
    pub drain_timeout_sec: u32,
    pub backpressure_timeout_sec: u32,
}

/// How the bus routes messages.
#[derive(Debug)]
pub struct RoutingConfig {
    pub session_id_field: String,
    pub default_pool: Option<String>,
}

/// The whole configuration.
#[derive(Debug)]
pub struct StdioBusConfig {
    pub pools: Vec<PoolConfig>,
    pub limits: LimitsConfig,
    pub routing: RoutingConfig,
}

/// What is wrong with a configuration, or with writing it.
#[derive(Debug)]
pub enum ConfigError {
    Invalid(String),
    Io(String),
    Json(String),
}

/// What a [`ConfigError`] holds.
#[verifier::ext_equal]
pub enum ConfigErrorView {
    Invalid(Seq<char>),
    Io(Seq<char>),
    Json(Seq<char>),
}

/// What a [`PoolConfig`] holds.
#[verifier::ext_equal]
pub struct PoolView {
    pub id: Seq<char>,
    pub command: Seq<char>,
    pub args: Seq<Seq<char>>,
    pub instances: u32,
    pub env: Map<Seq<char>, Seq<char>>,
    pub cwd: Option<Seq<char>>,
}

/// What a [`RoutingConfig`] holds.
#[verifier::ext_equal]
pub struct RoutingConfigView {
    pub session_id_field: Seq<char>,
    pub default_pool: Option<Seq<char>>,
}

/// What a [`StdioBusConfig`] holds.
#[verifier::ext_equal]
pub struct ConfigView {
    pub pools: Seq<PoolView>,
    pub limits: LimitsConfig,
    pub routing: RoutingConfigView,
}

/// An environment: names and values, in the order in which they are looked at.
pub type Environment = Vec<(String, String)>;

/// What an [`Environment`] holds.
pub open spec fn environment_view(vars: Seq<(String, String)>) -> Seq<(Seq<char>, Seq<char>)> {
    vars.map_values(|var: (String, String)| (var.0@, var.1@))
}

impl View for ConfigError {
    type V = ConfigErrorView;

    open spec fn view(&self) -> ConfigErrorView {
        match self {
            ConfigError::Invalid(text) => ConfigErrorView::Invalid(text@),
            ConfigError::Io(text) => ConfigErrorView::Io(text@),
            ConfigError::Json(text) => ConfigErrorView::Json(text@),
        }
    }
}

impl View for PoolConfig {
    type V = PoolView;

    open spec fn view(&self) -> PoolView {
        PoolView {
            id: self.id@,
            command: self.command@,
            args: text::texts_view(self.args@),
            instances: self.instances,
            env: self.env@.map_values(|value: String| value@),
            cwd: message::text_view(self.cwd),
        }
    }
}

impl View for RoutingConfig {
    type V = RoutingConfigView;

    open spec fn view(&self) -> RoutingConfigView {
        RoutingConfigView {
            session_id_field: self.session_id_field@,
            default_pool: message::text_view(self.default_pool),
        }
    }
}

impl View for StdioBusConfig {
    type V = ConfigView;

    open spec fn view(&self) -> ConfigView {
        ConfigView {
            pools: self.pools@.map_values(|pool: PoolConfig| pool@),
            limits: self.limits,
            routing: self.routing@,
        }
    }
}

impl ConfigErrorView {
    /// The text that tells the error to a reader.
    pub open spec fn text(self) -> Seq<char> {
        match self {
            ConfigErrorView::Invalid(text) => "Invalid configuration: "@ + text,
            ConfigErrorView::Io(text) => "I/O error: "@ + text,
            ConfigErrorView::Json(text) => "JSON error: "@ + text,
        }
    }
}

impl ConfigError {
    /// The text that tells the error to a reader.
    pub fn to_string(&self) -> (r: String)
        ensures
            r@ == self@.text(),
    {
        match self {
            ConfigError::Invalid(text) => join("Invalid configuration: ", text.as_str()),
            ConfigError::Io(text) => join("I/O error: ", text.as_str()),
            ConfigError::Json(text) => join("JSON error: ", text.as_str()),
        }
    }
}

/// One megabyte.
pub fn default_max_input_buffer() -> (r: usize)
    ensures
        r == 1_048_576,
{
    1_048_576
}

/// Four megabytes.
pub fn default_max_output_queue() -> (r: usize)
    ensures
        r == 4_194_304,
{
    4_194_304
}

/// Five restarts.
pub fn default_max_restarts() -> (r: u32)
    ensures
        r == 5,
{
    5
}

/// One minute.
pub fn default_restart_window_sec() -> (r: u32)
    ensures
        r == 60,
{
    60
}

/// Half a minute.
pub fn default_drain_timeout_sec() -> (r: u32)
    ensures
        r == 30,
{
    30
}

/// One minute.
pub fn default_backpressure_timeout_sec() -> (r: u32)
    ensures
        r == 60,
{
    60
}

/// The usual limits.
pub open spec fn default_limits() -> LimitsConfig {
    LimitsConfig {
        max_input_buffer: 1_048_576,
        max_output_queue: 4_194_304,
        max_restarts: 5,
        restart_window_sec: 60,
        drain_timeout_sec: 30,
        backpressure_timeout_sec: 60,
    }
}

impl Default for LimitsConfig {
    fn default() -> (r: Self)
        ensures
            r == default_limits(),
    {
        LimitsConfig {
            max_input_buffer: default_max_input_buffer(),
            max_output_queue: default_max_output_queue(),
            max_restarts: default_max_restarts(),
            restart_window_sec: default_restart_window_sec(),
            drain_timeout_sec: default_drain_timeout_sec(),
            backpressure_timeout_sec: default_backpressure_timeout_sec(),
        }
    }
}

/// The field that names the session in a message.
pub fn default_session_id_field() -> (r: String)
    ensures
        r@ == "sessionId"@,
{
    "sessionId".to_owned()
}

/// The usual routing.
pub open spec fn default_routing() -> RoutingConfigView {
    RoutingConfigView { session_id_field: "sessionId"@, default_pool: None }
}

impl Default for RoutingConfig {
    fn default() -> (r: Self)
        ensures
            r@ == default_routing(),
    {
        RoutingConfig { session_id_field: default_session_id_field(), default_pool: None }
    }
}

/// A text with one variable replaced by its value, first where its name stands in
/// braces and then where it does not.
pub open spec fn substituted_one(s: Seq<char>, var: (Seq<char>, Seq<char>)) -> Seq<char> {
    text::replaced(text::replaced(s, "${"@ + var.0 + "}"@, var.1), "$"@ + var.0, var.1)
}

/// A text with the variables replaced by their values, one after the other.
pub open spec fn substituted(s: Seq<char>, vars: Seq<(Seq<char>, Seq<char>)>) -> Seq<char>
    decreases vars.len(),
{
    if vars.len() == 0 {
        s
    } else {
        substituted_one(substituted(s, vars.drop_last()), vars.last())
    }
}

/// Replaces the variables in a text by their values: `${NAME}` and `$NAME`, variable
/// by variable.
pub fn substitute_env(s: &str, vars: &Environment) -> (r: String)
    ensures
        r@ == substituted(s@, environment_view(vars@)),
{
    let ghost all = environment_view(vars@);
    let mut result: String = s.to_owned();
    let mut i: usize = 0;
    assert(all.take(0) =~= Seq::empty());
    while i < vars.len()
        invariant
            i <= vars@.len(),
            all == environment_view(vars@),
            result@ == substituted(s@, all.take(i as int)),
        decreases vars@.len() - i,
    {
        let key: &str = vars[i].0.as_str();
        let value: &str = vars[i].1.as_str();
        let mut braced: String = join("${", key);
        braced.append("}");
        let plain: String = join("$", key);
        proof {
            reveal_strlit("${");
            reveal_strlit("$");
            let now = all.take(i + 1);
            assert(now.drop_last() =~= all.take(i as int));
            assert(now.last() == (key@, value@));
        }
        result = replace_all(result.as_str(), braced.as_str(), value);
        result = replace_all(result.as_str(), plain.as_str(), value);
        i = i + 1;
    }
    assert(all.take(vars@.len() as int) =~= all);
    result
}

impl PoolView {
    /// What is wrong with a pool.
    pub open spec fn problem(self) -> Option<Seq<char>> {
        if self.id.len() == 0 {
            Some("Pool ID cannot be empty"@)
        } else if self.command.len() == 0 {
            Some("Pool '"@ + self.id + "' command cannot be empty"@)
        } else if self.instances == 0 {
            Some("Pool '"@ + self.id + "' must have at least 1 instance"@)
        } else {
            None
        }
    }

    /// The pool with the variables replaced in its command, its arguments, its
    /// directory and the values of its environment.
    pub open spec fn substituted(self, vars: Seq<(Seq<char>, Seq<char>)>) -> PoolView {
        PoolView {
            command: substituted(self.command, vars),
            args: self.args.map_values(|arg: Seq<char>| substituted(arg, vars)),
            env: self.env.map_values(|value: Seq<char>| substituted(value, vars)),
            cwd: match self.cwd {
                Some(cwd) => Some(substituted(cwd, vars)),
                None => None,
            },
            ..self
        }
    }
}

/// What is wrong with the first pool that is not in order.
pub open spec fn pools_problem(pools: Seq<PoolView>) -> Option<Seq<char>>
    decreases pools.len(),
{
    if pools.len() == 0 {
        None
    } else {
        match pools[0].problem() {
            Some(problem) => Some(problem),
            None => pools_problem(pools.skip(1)),
        }
    }
}

impl ConfigView {
    /// What is wrong with a configuration, first thing first.
    pub open spec fn problem(self) -> Option<Seq<char>> {
        if self.pools.len() == 0 {
            Some("At least one pool is required"@)
        } else {
            pools_problem(self.pools)
        }
    }

    /// The configuration with the variables replaced in its pools.
    pub open spec fn substituted(self, vars: Seq<(Seq<char>, Seq<char>)>) -> ConfigView {
        ConfigView {
            pools: self.pools.map_values(|pool: PoolView| pool.substituted(vars)),
            ..self
        }
    }

    /// The configuration for development.
    pub open spec fn development(codex_home: Seq<char>) -> ConfigView {
        ConfigView {
            pools: seq![
                PoolView {
                    id: "app-server"@,
                    command: "cargo"@,
                    args: seq!["run"@, "-p"@, "codex-app-server"@, "--"@, "--worker"@],
                    instances: 1,
                    env: Map::empty().insert("CODEX_HOME"@, codex_home).insert(
                        "RUST_LOG"@,
                        "debug"@,
                    ),
                    cwd: None,
                },
            ],
            limits: LimitsConfig {
                max_restarts: 10,
                restart_window_sec: 300,
                ..default_limits()
            },
            routing: default_routing(),
        }
    }

    /// The configuration for production.
    pub open spec fn production(app_server_path: Seq<char>, instances: u32) -> ConfigView {
        ConfigView {
            pools: seq![
                PoolView {
                    id: "app-server"@,
                    command: app_server_path,
                    args: seq!["--worker"@],
                    instances,
                    env: Map::empty().insert("RUST_LOG"@, "warn"@),
                    cwd: None,
                },
            ],
            limits: default_limits(),
            routing: RoutingConfigView { default_pool: Some("app-server"@), ..default_routing() },
        }
    }
}

impl PoolConfig {
    /// What is wrong with the pool.
    fn check(&self) -> (r: Option<String>)
        ensures
            message::text_view(r) == self@.problem(),
    {
        if self.id.as_str().is_empty() {
            return Some("Pool ID cannot be empty".to_owned());
        }
        if self.command.as_str().is_empty() {
            let mut text: String = join("Pool '", self.id.as_str());
            text.append("' command cannot be empty");
            return Some(text);
        }
        if self.instances == 0 {
            let mut text: String = join("Pool '", self.id.as_str());
            text.append("' must have at least 1 instance");
            return Some(text);
        }
        None
    }

    /// The pool with the variables replaced.
    fn substitute(&self, vars: &Environment) -> (r: PoolConfig)
        ensures
            r@ == self@.substituted(environment_view(vars@)),
    {
        let ghost all = environment_view(vars@);
        let command: String = substitute_env(self.command.as_str(), vars);
        let mut args: Vec<String> = Vec::new();
        let mut i: usize = 0;
        while i < self.args.len()
            invariant
                i <= self.args@.len(),
                args@.len() == i,
                all == environment_view(vars@),
                forall|j: int|
                    0 <= j < i ==> (#[trigger] args@[j])@ == substituted(self.args@[j]@, all),
            decreases self.args@.len() - i,
        {
            args.push(substitute_env(self.args[i].as_str(), vars));
            i = i + 1;
        }
        let cwd: Option<String> = match &self.cwd {
            Some(cwd) => Some(substitute_env(cwd.as_str(), vars)),
            None => None,
        };
        let keys: Vec<String> = self.env.keys();
        let ghost names = self.env.spec_keys();
        let mut env: StringMap<String> = StringMap::new();
        let mut k: usize = 0;
        while k < keys.len()
            invariant
                k <= keys@.len(),
                keys@.len() == names.len(),
                forall|j: int| 0 <= j < keys@.len() ==> (#[trigger] keys@[j])@ == names[j],
                names.to_set() == self.env@.dom(),
                all == environment_view(vars@),
                forall|key: Seq<char>| #[trigger]
                    env@.contains_key(key) <==> names.take(k as int).contains(key),
                forall|key: Seq<char>| #[trigger]
                    env@.contains_key(key) ==> self.env@.contains_key(key) && env@[key]@
                        == substituted(self.env@[key]@, all),
            decreases keys@.len() - k,
        {
            let key: &str = keys[k].as_str();
            assert(names.to_set().contains(names[k as int]));
            assert(self.env@.contains_key(key@));
            let value: &String = self.env.get(key).unwrap();
            let ghost before = env@;
            env.insert(key, substitute_env(value.as_str(), vars));
            proof {
                assert(names.take(k + 1) =~= names.take(k as int).push(names[k as int]));
                assert forall|key2: Seq<char>| #[trigger]
                    env@.contains_key(key2) <==> names.take(k + 1).contains(key2) by {
                    let shorter = names.take(k as int);
                    let longer = names.take(k + 1);
                    if shorter.contains(key2) {
                        let j = choose|j: int| 0 <= j < shorter.len() && shorter[j] == key2;
                        assert(longer[j] == key2);
                    }
                    if longer.contains(key2) {
                        let j = choose|j: int| 0 <= j < longer.len() && longer[j] == key2;
                        if j < k {
                            assert(shorter[j] == key2);
                        }
                    }
                    assert(longer[k as int] == key@);
                    assert(before.contains_key(key2) || key2 == key@
                        <==> env@.contains_key(key2));
                }
            }
            k = k + 1;
        }
        let r = PoolConfig {
            id: self.id.clone(),
            command,
            args,
            instances: self.instances,
            env,
            cwd,
        };
        proof {
            let expected = self@.substituted(all);
            assert(r@.args =~= expected.args);
            assert(names.take(keys@.len() as int) =~= names);
            assert forall|key: Seq<char>| #[trigger]
                r@.env.contains_key(key) <==> expected.env.contains_key(key) by {
                assert(env@.contains_key(key) <==> names.contains(key));
                assert(names.contains(key) <==> names.to_set().contains(key));
                assert(self.env@.dom().contains(key) <==> self.env@.contains_key(key));
            }
            assert(r@.env =~= expected.env);
        }
        r
    }
}

impl StdioBusConfig {
    /// The configuration for development, which builds and runs the server from its
    /// sources.
    pub fn development(codex_home: &str) -> (r: Self)
        ensures
            r@ == ConfigView::development(codex_home@),
    {
        let mut args: Vec<String> = Vec::new();
        args.push("run".to_owned());
        args.push("-p".to_owned());
        args.push("codex-app-server".to_owned());
        args.push("--".to_owned());
        args.push("--worker".to_owned());
        let mut env: StringMap<String> = StringMap::new();
        env.insert("CODEX_HOME", codex_home.to_owned());
        env.insert("RUST_LOG", "debug".to_owned());
        let mut pools: Vec<PoolConfig> = Vec::new();
        pools.push(
            PoolConfig {
                id: "app-server".to_owned(),
                command: "cargo".to_owned(),
                args,
                instances: 1,
                env,
                cwd: None,
            },
        );
        let r = StdioBusConfig {
            pools,
            limits: LimitsConfig {
                max_restarts: 10,
                restart_window_sec: 300,
                ..LimitsConfig::default()
            },
            routing: RoutingConfig::default(),
        };
        proof {
            let expected = ConfigView::development(codex_home@);
            assert(r@.pools[0].args =~= expected.pools[0].args);
            assert(r@.pools[0].env =~= expected.pools[0].env);
            assert(r@.pools =~= expected.pools);
        }
        r
    }

    /// The configuration for production, which runs the server from a path.
    pub fn production(app_server_path: &str, instances: u32) -> (r: Self)
        ensures
            r@ == ConfigView::production(app_server_path@, instances),
    {
        let mut args: Vec<String> = Vec::new();
        args.push("--worker".to_owned());
        let mut env: StringMap<String> = StringMap::new();
        env.insert("RUST_LOG", "warn".to_owned());
        let mut pools: Vec<PoolConfig> = Vec::new();
        pools.push(
            PoolConfig {
                id: "app-server".to_owned(),
                command: app_server_path.to_owned(),
                args,
                instances,
                env,
                cwd: None,
            },
        );
        let r = StdioBusConfig {
            pools,
            limits: LimitsConfig::default(),
            routing: RoutingConfig {
                default_pool: Some("app-server".to_owned()),
                ..RoutingConfig::default()
            },
        };
        proof {
            let expected = ConfigView::production(app_server_path@, instances);
            assert(r@.pools[0].args =~= expected.pools[0].args);
            assert(r@.pools[0].env =~= expected.pools[0].env);
            assert(r@.pools =~= expected.pools);
        }
        r
    }

    /// Replaces the variables of an environment in the pools.
    pub fn substitute_env_vars(&mut self, vars: &Environment)
        ensures
            final(self)@ == old(self)@.substituted(environment_view(vars@)),
    {
        let ghost all = environment_view(vars@);
        let ghost before = self.pools@;
        let mut pools: Vec<PoolConfig> = Vec::new();
        let mut i: usize = 0;
        while i < self.pools.len()
            invariant
                i <= self.pools@.len(),
                self.pools@ == before,
                self.limits == old(self).limits,
                self.routing == old(self).routing,
                before == old(self).pools@,
                pools@.len() == i,
                all == environment_view(vars@),
                forall|j: int|
                    0 <= j < i ==> (#[trigger] pools@[j])@ == before[j]@.substituted(all),
            decreases self.pools@.len() - i,
        {
            pools.push(self.pools[i].substitute(vars));
            i = i + 1;
        }
        self.pools = pools;
        assert(self@.pools =~= old(self)@.substituted(all).pools);
    }

    /// Tells what is wrong with the configuration, first thing first.
    pub fn validate(&self) -> (r: Result<(), ConfigError>)
        ensures
            match self@.problem() {
                Some(problem) => r matches Err(error) && error@ == ConfigErrorView::Invalid(
                    problem,
                ),
                None => r is Ok,
            },
    {
        if self.pools.len() == 0 {
            return Err(ConfigError::Invalid("At least one pool is required".to_owned()));
        }
        let mut i: usize = 0;
        assert(self@.pools.skip(0) =~= self@.pools);
        while i < self.pools.len()
            invariant
                i <= self.pools@.len(),
                self.pools@.len() > 0,
                pools_problem(self@.pools.skip(i as int)) == pools_problem(self@.pools),
            decreases self.pools@.len() - i,
        {
            assert(self@.pools.skip(i as int)[0] == self.pools@[i as int]@);
            assert(self@.pools.skip(i as int).skip(1) =~= self@.pools.skip(i + 1));
            if let Some(text) = self.pools[i].check() {
                return Err(ConfigError::Invalid(text));
            }
            i = i + 1;
        }
        Ok(())
    }
}

/// A configuration is in order exactly where it has a pool and each pool has a name, a
/// command and an instance.
pub proof fn law_valid_configurations(config: ConfigView)
    ensures
        config.problem() is None <==> config.pools.len() > 0 && forall|i: int|
            0 <= i < config.pools.len() ==> (#[trigger] config.pools[i]).id.len() > 0
                && config.pools[i].command.len() > 0 && config.pools[i].instances > 0,
{
    lemma_valid_pools(config.pools);
}

proof fn lemma_valid_pools(pools: Seq<PoolView>)
    ensures
        pools_problem(pools) is None <==> forall|i: int|
            0 <= i < pools.len() ==> (#[trigger] pools[i]).id.len() > 0 && pools[i].command.len()
                > 0 && pools[i].instances > 0,
    decreases pools.len(),
{
    if pools.len() > 0 {
        lemma_valid_pools(pools.skip(1));
        if pools_problem(pools) is None {
            assert forall|i: int| 0 <= i < pools.len() implies (#[trigger] pools[i]).id.len() > 0
                && pools[i].command.len() > 0 && pools[i].instances > 0 by {
                if i > 0 {
                    assert(pools[i] == pools.skip(1)[i - 1]);
                }
            }
        } else {
            if pools[0].problem() is None {
                let i = choose|i: int|
                    0 <= i < pools.skip(1).len() && !((#[trigger] pools.skip(1)[i]).id.len() > 0
                        && pools.skip(1)[i].command.len() > 0 && pools.skip(1)[i].instances > 0);
                assert(pools[i + 1] == pools.skip(1)[i]);
            }
        }
    }
}

/// The configuration for development is in order, and the one for production is where
/// it has a path and at least one instance.
pub proof fn law_presets_are_valid(codex_home: Seq<char>, path: Seq<char>, instances: u32)
    ensures
        ConfigView::development(codex_home).problem() is None,
        ConfigView::production(path, instances).problem() is None <==> path.len() > 0 && instances
            > 0,
{
    reveal_strlit("app-server");
    reveal_strlit("cargo");
    let development = ConfigView::development(codex_home);
    let production = ConfigView::production(path, instances);
    assert(development.pools.skip(1) =~= Seq::empty());
    assert(production.pools.skip(1) =~= Seq::empty());
    assert(development.pools[0].problem() is None);
    assert(pools_problem(production.pools.skip(1)) is None);
    assert(pools_problem(development.pools.skip(1)) is None);
}

/// Without variables nothing is replaced.
pub proof fn law_empty_environment_changes_nothing(config: ConfigView)
    ensures
        config.substituted(Seq::empty()) == config,
{
    let after = config.substituted(Seq::empty());
    assert forall|i: int| 0 <= i < config.pools.len() implies #[trigger] after.pools[i]
        == config.pools[i] by {
        let pool = config.pools[i];
        assert(after.pools[i].args =~= pool.args);
        assert(after.pools[i].env =~= pool.env);
    }
    assert(after.pools =~= config.pools);
}

/// A text without a dollar sign is left as it is, whatever the variables are.
pub proof fn law_text_without_dollar_is_kept(
    s: Seq<char>,
    vars: Seq<(Seq<char>, Seq<char>)>,
)
    requires
        !s.contains('$'),
    ensures
        substituted(s, vars) == s,
    decreases vars.len(),
{
    if vars.len() > 0 {
        law_text_without_dollar_is_kept(s, vars.drop_last());
        let name = vars.last().0;
        reveal_strlit("${");
        reveal_strlit("$");
        lemma_dollar_does_not_occur(s, "${"@ + name + "}"@);
        lemma_dollar_does_not_occur(s, "$"@ + name);
        text::law_replacement_needs_an_occurrence(s, "${"@ + name + "}"@, vars.last().1);
        text::law_replacement_needs_an_occurrence(s, "$"@ + name, vars.last().1);
    }
}

proof fn lemma_dollar_does_not_occur(s: Seq<char>, pattern: Seq<char>)
    requires
        pattern.len() > 0,
        pattern[0] == '$',
        !s.contains('$'),
    ensures
        !text::occurs(s, pattern),
{
    assert forall|i: int| 0 <= i && i + pattern.len() <= s.len() implies #[trigger] s.subrange(
        i,
        i + pattern.len(),
    ) != pattern by {
        assert(s.subrange(i, i + pattern.len())[0] == s[i]);
        assert(s.contains(s[i]));
    }
}

/// A text in which no variable is named is left as it is.
pub proof fn law_unnamed_variables_change_nothing(
    s: Seq<char>,
    vars: Seq<(Seq<char>, Seq<char>)>,
)
    requires
        forall|i: int|
            0 <= i < vars.len() ==> !text::occurs(s, "${"@ + (#[trigger] vars[i]).0 + "}"@)
                && !text::occurs(s, "$"@ + vars[i].0),
    ensures
        substituted(s, vars) == s,
    decreases vars.len(),
{
    if vars.len() > 0 {
        assert forall|i: int| 0 <= i < vars.drop_last().len() implies !text::occurs(
            s,
            "${"@ + (#[trigger] vars.drop_last()[i]).0 + "}"@,
        ) && !text::occurs(s, "$"@ + vars.drop_last()[i].0) by {
            assert(vars.drop_last()[i] == vars[i]);
        }
        law_unnamed_variables_change_nothing(s, vars.drop_last());
        let last = vars[vars.len() - 1];
        reveal_strlit("${");
        reveal_strlit("$");
        text::law_replacement_needs_an_occurrence(s, "${"@ + last.0 + "}"@, last.1);
        text::law_replacement_needs_an_occurrence(s, "$"@ + last.0, last.1);
    }
}

/// A pattern that starts with a dollar sign is replaced where it stands in a text, and
/// the text around it is kept, as long as there is no dollar sign in that.
proof fn lemma_pattern_in_text_is_replaced(
    before: Seq<char>,
    pattern: Seq<char>,
    after: Seq<char>,
    by: Seq<char>,
)
    requires
        pattern.len() > 0,
        pattern[0] == '$',
        !before.contains('$'),
        !after.contains('$'),
    ensures
        text::replaced(before + pattern + after, pattern, by) == before + by + after,
    decreases before.len(),
{
    let s = before + pattern + after;
    if before.len() == 0 {
        assert(s.subrange(0, pattern.len() as int) =~= pattern);
        assert(s.skip(pattern.len() as int) =~= after);
        lemma_dollar_does_not_occur(after, pattern);
        text::law_replacement_needs_an_occurrence(after, pattern, by);
        assert(by + after =~= before + by + after);
    } else {
        let rest = before.skip(1);
        assert(before.contains(before[0]));
        assert(s.subrange(0, pattern.len() as int)[0] == before[0]);
        assert forall|i: int| 0 <= i < rest.len() implies #[trigger] rest[i] != '$' by {
            assert(before.contains(before[i + 1]));
        }
        assert(s.skip(1) =~= rest + pattern + after);
        lemma_pattern_in_text_is_replaced(rest, pattern, after, by);
        assert(seq![before[0]] + (rest + by + after) =~= before + by + after);
    }
}

/// A variable in a text, in braces or not, becomes its value, and the text around it,
/// without dollar signs, is kept. In braces this speaks of a result that does not name
/// the variable again; without braces, of a text that does not also name it in them.
pub proof fn law_variable_becomes_its_value(
    before: Seq<char>,
    name: Seq<char>,
    after: Seq<char>,
    value: Seq<char>,
)
    requires
        !before.contains('$'),
        !after.contains('$'),
    ensures
        !text::occurs(before + value + after, "$"@ + name) ==> substituted(
            before + ("${"@ + name + "}"@) + after,
            seq![(name, value)],
        ) == before + value + after,
        !text::occurs(before + ("$"@ + name) + after, "${"@ + name + "}"@) ==> substituted(
            before + ("$"@ + name) + after,
            seq![(name, value)],
        ) == before + value + after,
{
    reveal_strlit("${");
    reveal_strlit("$");
    let braced = "${"@ + name + "}"@;
    let plain = "$"@ + name;
    let vars = seq![(name, value)];
    let result = before + value + after;
    assert(vars.drop_last() =~= Seq::empty());
    assert(substituted(before + braced + after, vars.drop_last()) == before + braced + after);
    assert(substituted(before + plain + after, vars.drop_last()) == before + plain + after);
    lemma_pattern_in_text_is_replaced(before, braced, after, value);
    lemma_pattern_in_text_is_replaced(before, plain, after, value);
    if !text::occurs(result, plain) {
        text::law_replacement_needs_an_occurrence(result, plain, value);
    }
    if !text::occurs(before + plain + after, braced) {
        text::law_replacement_needs_an_occurrence(before + plain + after, braced, value);
    }
}

/// Whether a character may stand in the name of a variable: a letter, a digit or an
/// underscore.
pub open spec fn is_name_char(c: char) -> bool {
    ('a' <= c <= 'z') || ('A' <= c <= 'Z') || ('0' <= c <= '9') || c == '_'
}

/// Whether a text is the name of a variable.
pub open spec fn is_name(s: Seq<char>) -> bool {
    s.len() > 0 && forall|i: int| 0 <= i < s.len() ==> is_name_char(#[trigger] s[i])
}

/// A piece of a text with variables in braces.
#[verifier::ext_equal]
pub enum Piece {
    /// Text without a dollar sign.
    Plain(Seq<char>),
    /// The name of a variable.
    Variable(Seq<char>),
}

impl Piece {
    /// Whether plain text has no dollar sign and a variable has a name.
    pub open spec fn well_formed(self) -> bool {
        match self {
            Piece::Plain(text) => !text.contains('$'),
            Piece::Variable(name) => is_name(name),
        }
    }

    /// The text of the piece: a variable stands in braces behind a dollar sign.
    pub open spec fn text(self) -> Seq<char> {
        match self {
            Piece::Plain(text) => text,
            Piece::Variable(name) => "${"@ + name + "}"@,
        }
    }

    /// The piece with one variable replaced by its value.
    pub open spec fn with_value(self, var: (Seq<char>, Seq<char>)) -> Piece {
        if self == Piece::Variable(var.0) {
            Piece::Plain(var.1)
        } else {
            self
        }
    }

    /// The piece with its value in place of a variable that has one.
    pub open spec fn resolved(self, vars: Seq<(Seq<char>, Seq<char>)>) -> Piece {
        match self {
            Piece::Plain(_) => self,
            Piece::Variable(name) => match value_of(vars, name) {
                Some(value) => Piece::Plain(value),
                None => self,
            },
        }
    }
}

/// The value of a variable, by the first entry that has its name.
pub open spec fn value_of(vars: Seq<(Seq<char>, Seq<char>)>, name: Seq<char>) -> Option<Seq<char>>
    decreases vars.len(),
{
    if vars.len() == 0 {
        None
    } else {
        match value_of(vars.drop_last(), name) {
            Some(value) => Some(value),
            None => if vars.last().0 == name {
                Some(vars.last().1)
            } else {
                None
            },
        }
    }
}

/// Whether the pieces of a text are in order.
pub open spec fn well_formed_pieces(pieces: Seq<Piece>) -> bool {
    forall|i: int| 0 <= i < pieces.len() ==> (#[trigger] pieces[i]).well_formed()
}

/// The text that is made of some pieces.
pub open spec fn text_of(pieces: Seq<Piece>) -> Seq<char>
    decreases pieces.len(),
{
    if pieces.len() == 0 {
        Seq::empty()
    } else {
        pieces[0].text() + text_of(pieces.skip(1))
    }
}

/// Whether each variable has a name, and each that stands in a text has a value without
/// a dollar sign.
pub open spec fn usable_for(vars: Seq<(Seq<char>, Seq<char>)>, pieces: Seq<Piece>) -> bool {
    forall|i: int|
        0 <= i < vars.len() ==> is_name((#[trigger] vars[i]).0) && (pieces.contains(
            Piece::Variable(vars[i].0),
        ) ==> !vars[i].1.contains('$'))
}

/// Text without a dollar sign in front of another is kept when a pattern that starts
/// with one is replaced.
proof fn lemma_plain_front_is_kept(
    front: Seq<char>,
    rest: Seq<char>,
    pattern: Seq<char>,
    by: Seq<char>,
)
    requires
        pattern.len() > 0,
        pattern[0] == '$',
        !front.contains('$'),
    ensures
        text::replaced(front + rest, pattern, by) == front + text::replaced(rest, pattern, by),
    decreases front.len(),
{
    let s = front + rest;
    if front.len() == 0 {
        assert(s =~= rest);
        assert(front + text::replaced(rest, pattern, by) =~= text::replaced(rest, pattern, by));
    } else if s.len() >= pattern.len() {
        let shorter = front.skip(1);
        assert(front.contains(front[0]));
        assert(s.subrange(0, pattern.len() as int)[0] == front[0]);
        assert forall|i: int| 0 <= i < shorter.len() implies #[trigger] shorter[i] != '$' by {
            assert(front.contains(front[i + 1]));
        }
        assert(s.skip(1) =~= shorter + rest);
        lemma_plain_front_is_kept(shorter, rest, pattern, by);
        assert(seq![front[0]] + (shorter + text::replaced(rest, pattern, by)) =~= front
            + text::replaced(rest, pattern, by));
    }
}

/// A variable in braces in front of a text is kept when a pattern is replaced that does
/// not stand there.
proof fn lemma_variable_front_is_kept(
    name: Seq<char>,
    rest: Seq<char>,
    pattern: Seq<char>,
    by: Seq<char>,
)
    requires
        is_name(name),
        pattern.len() > 0,
        pattern[0] == '$',
        !text::has_prefix("${"@ + name + "}"@ + rest, pattern),
    ensures
        text::replaced("${"@ + name + "}"@ + rest, pattern, by) == "${"@ + name + "}"@
            + text::replaced(rest, pattern, by),
{
    reveal_strlit("${");
    reveal_strlit("}");
    let s = "${"@ + name + "}"@ + rest;
    if s.len() >= pattern.len() {
        let inner = seq!['{'] + name + "}"@;
        assert(!inner.contains('$')) by {
            assert forall|i: int| 0 <= i < inner.len() implies #[trigger] inner[i] != '$' by {
                if 1 <= i < 1 + name.len() {
                    assert(is_name_char(name[i - 1]));
                }
            }
        }
        assert(s.skip(1) =~= inner + rest);
        lemma_plain_front_is_kept(inner, rest, pattern, by);
        assert(seq!['$'] + (inner + text::replaced(rest, pattern, by)) =~= "${"@ + name + "}"@
            + text::replaced(rest, pattern, by));
    }
}

/// A variable in braces stands in front of a text only where the text begins with that
/// variable.
proof fn lemma_braces_tell_names_apart(name: Seq<char>, other: Seq<char>, rest: Seq<char>)
    requires
        is_name(name),
        is_name(other),
        text::has_prefix("${"@ + name + "}"@ + rest, "${"@ + other + "}"@),
    ensures
        name == other,
{
    reveal_strlit("${");
    reveal_strlit("}");
    let s = "${"@ + name + "}"@ + rest;
    let pattern = "${"@ + other + "}"@;
    assert forall|i: int| 0 <= i < pattern.len() implies #[trigger] s[i] == pattern[i] by {
        assert(s.subrange(0, pattern.len() as int)[i] == s[i]);
    }
    assert('}' == pattern[other.len() as int + 2]);
    if other.len() < name.len() {
        assert(s[other.len() as int + 2] == name[other.len() as int]);
        assert(is_name_char(name[other.len() as int]));
    } else if other.len() > name.len() {
        assert(s[name.len() as int + 2] == '}');
        assert(pattern[name.len() as int + 2] == other[name.len() as int]);
        assert(is_name_char(other[name.len() as int]));
    } else {
        assert forall|i: int| 0 <= i < name.len() implies #[trigger] name[i] == other[i] by {
            assert(s[i + 2] == pattern[i + 2]);
        }
        assert(name =~= other);
    }
}

/// Replacing one variable replaces it in each piece.
proof fn lemma_one_variable_in_pieces(pieces: Seq<Piece>, var: (Seq<char>, Seq<char>))
    requires
        well_formed_pieces(pieces),
        is_name(var.0),
    ensures
        text::replaced(text_of(pieces), "${"@ + var.0 + "}"@, var.1) == text_of(
            pieces.map_values(|piece: Piece| piece.with_value(var)),
        ),
        text::replaced(text_of(pieces), "$"@ + var.0, var.1) == text_of(pieces),
    decreases pieces.len(),
{
    reveal_strlit("${");
    reveal_strlit("$");
    let braced = "${"@ + var.0 + "}"@;
    let plain = "$"@ + var.0;
    let after = pieces.map_values(|piece: Piece| piece.with_value(var));
    if pieces.len() > 0 {
        let tail = pieces.skip(1);
        let rest = text_of(tail);
        assert forall|i: int| 0 <= i < tail.len() implies (#[trigger] tail[i]).well_formed() by {
            assert(tail[i] == pieces[i + 1]);
        }
        lemma_one_variable_in_pieces(tail, var);
        assert(after.skip(1) =~= tail.map_values(|piece: Piece| piece.with_value(var)));
        assert(pieces[0].well_formed());
        match pieces[0] {
            Piece::Plain(front) => {
                lemma_plain_front_is_kept(front, rest, braced, var.1);
                lemma_plain_front_is_kept(front, rest, plain, var.1);
            },
            Piece::Variable(name) => {
                let s = "${"@ + name + "}"@ + rest;
                assert(!text::has_prefix(s, plain)) by {
                    assert(is_name_char(var.0[0]));
                    if text::has_prefix(s, plain) {
                        assert(s.subrange(0, plain.len() as int)[1] == s[1]);
                    }
                }
                lemma_variable_front_is_kept(name, rest, plain, var.1);
                if name == var.0 {
                    assert(s.subrange(0, braced.len() as int) =~= braced);
                    assert(s.skip(braced.len() as int) =~= rest);
                } else {
                    if text::has_prefix(s, braced) {
                        lemma_braces_tell_names_apart(name, var.0, rest);
                    }
                    lemma_variable_front_is_kept(name, rest, braced, var.1);
                }
            },
        }
    }
}

/// In a text whose every dollar sign begins a variable in braces, each variable becomes
/// its value, or stays where it has none, and everything else is kept. Names are made of
/// letters, digits and underscores, and the values that are put in have no dollar sign.
pub proof fn law_each_variable_becomes_its_value(
    pieces: Seq<Piece>,
    vars: Seq<(Seq<char>, Seq<char>)>,
)
    requires
        well_formed_pieces(pieces),
        usable_for(vars, pieces),
    ensures
        substituted(text_of(pieces), vars) == text_of(
            pieces.map_values(|piece: Piece| piece.resolved(vars)),
        ),
    decreases vars.len(),
{
    let resolved = pieces.map_values(|piece: Piece| piece.resolved(vars));
    if vars.len() == 0 {
        assert(resolved =~= pieces);
    } else {
        let earlier = vars.drop_last();
        let var = vars[vars.len() - 1];
        assert forall|i: int| 0 <= i < earlier.len() implies is_name((#[trigger] earlier[i]).0) && (
        pieces.contains(Piece::Variable(earlier[i].0)) ==> !earlier[i].1.contains('$')) by {
            assert(earlier[i] == vars[i]);
        }
        law_each_variable_becomes_its_value(pieces, earlier);
        let before = pieces.map_values(|piece: Piece| piece.resolved(earlier));
        let after = before.map_values(|piece: Piece| piece.with_value(var));
        lemma_resolved_is_well_formed(pieces, earlier);
        lemma_one_variable_in_pieces(before, var);
        assert(after =~= resolved);
        lemma_resolved_is_well_formed(pieces, vars);
        lemma_one_variable_in_pieces(resolved, var);
    }
}

/// Pieces stay in order when values are put in.
proof fn lemma_resolved_is_well_formed(pieces: Seq<Piece>, vars: Seq<(Seq<char>, Seq<char>)>)
    requires
        well_formed_pieces(pieces),
        usable_for(vars, pieces),
    ensures
        well_formed_pieces(pieces.map_values(|piece: Piece| piece.resolved(vars))),
{
    let resolved = pieces.map_values(|piece: Piece| piece.resolved(vars));
    assert forall|i: int| 0 <= i < resolved.len() implies (#[trigger] resolved[i]).well_formed() by {
        assert(pieces[i].well_formed());
        if let Piece::Variable(name) = pieces[i] {
            assert(pieces.contains(pieces[i]));
            lemma_value_is_an_entry(vars, name);
        }
    }
}

/// The value of a variable stands in an entry with its name.
proof fn lemma_value_is_an_entry(vars: Seq<(Seq<char>, Seq<char>)>, name: Seq<char>)
    ensures
        value_of(vars, name) matches Some(value) ==> exists|i: int|
            0 <= i < vars.len() && #[trigger] vars[i] == (name, value),
    decreases vars.len(),
{
    if vars.len() > 0 {
        let earlier = vars.drop_last();
        lemma_value_is_an_entry(earlier, name);
        match value_of(earlier, name) {
            Some(value) => {
                let i = choose|i: int| 0 <= i < earlier.len() && earlier[i] == (name, value);
                assert(vars[i] == (name, value));
            },
            None => {
                assert(vars[vars.len() - 1] == vars.last());
            },
        }
    }
}

/// The order of the variables does not matter to such a text: two environments that give
/// each variable the same value give the same text.
pub proof fn law_order_of_variables_does_not_matter(
    pieces: Seq<Piece>,
    vars: Seq<(Seq<char>, Seq<char>)>,
    others: Seq<(Seq<char>, Seq<char>)>,
)
    requires
        well_formed_pieces(pieces),
        usable_for(vars, pieces),
        usable_for(others, pieces),
        forall|name: Seq<char>| #[trigger] value_of(vars, name) == value_of(others, name),
    ensures
        substituted(text_of(pieces), vars) == substituted(text_of(pieces), others),
{
    law_each_variable_becomes_its_value(pieces, vars);
    law_each_variable_becomes_its_value(pieces, others);
    assert(pieces.map_values(|piece: Piece| piece.resolved(vars)) =~= pieces.map_values(
        |piece: Piece| piece.resolved(others),
    ));
}

/// Replacing variables keeps the number of pools, their names, their instances and the
/// names of their variables, and it leaves the limits and the routing alone.
pub proof fn law_substitution_keeps_the_rest(
    config: ConfigView,
    vars: Seq<(Seq<char>, Seq<char>)>,
    i: int,
)
    requires
        0 <= i < config.pools.len(),
    ensures
        config.substituted(vars).pools.len() == config.pools.len(),
        config.substituted(vars).pools[i].id == config.pools[i].id,
        config.substituted(vars).pools[i].instances == config.pools[i].instances,
        config.substituted(vars).pools[i].args.len() == config.pools[i].args.len(),
        config.substituted(vars).pools[i].env.dom() == config.pools[i].env.dom(),
        config.substituted(vars).limits == config.limits,
        config.substituted(vars).routing == config.routing,
{
    assert(config.substituted(vars).pools[i].env.dom() =~= config.pools[i].env.dom());
}

/// Variables are replaced one after the other: with one more, it is replaced last, first
/// where its name stands in braces behind a dollar sign and then where it does not.
pub proof fn law_variables_are_replaced_one_after_the_other(
    s: Seq<char>,
    vars: Seq<(Seq<char>, Seq<char>)>,
    name: Seq<char>,
    value: Seq<char>,
)
    ensures
        substituted(s, Seq::empty()) == s,
        substituted(s, vars.push((name, value))) == text::replaced(
            text::replaced(substituted(s, vars), "${"@ + name + "}"@, value),
            "$"@ + name,
            value,
        ),
{
    assert(vars.push((name, value)).drop_last() =~= vars);
}

/// In every pool of a configuration the command, each argument, the directory and each
/// value of the environment are replaced by the text with the variables put in. Nothing
/// else in the pool changes, and no pool is added, lost or moved.
pub proof fn law_every_pool_is_substituted(
    config: ConfigView,
    vars: Seq<(Seq<char>, Seq<char>)>,
    i: int,
    k: int,
    key: Seq<char>,
)
    requires
        0 <= i < config.pools.len(),
    ensures
        ({
            let before = config.pools[i];
            let after = config.substituted(vars).pools[i];
            &&& config.substituted(vars).pools.len() == config.pools.len()
            &&& after.id == before.id
            &&& after.instances == before.instances
            &&& after.command == substituted(before.command, vars)
            &&& after.args.len() == before.args.len()
            &&& 0 <= k < before.args.len() ==> after.args[k] == substituted(before.args[k], vars)
            &&& match (after.cwd, before.cwd) {
                (Some(now), Some(then)) => now == substituted(then, vars),
                (None, None) => true,
                _ => false,
            }
            &&& after.env.contains_key(key) <==> before.env.contains_key(key)
            &&& before.env.contains_key(key) ==> after.env[key] == substituted(
                before.env[key],
                vars,
            )
            &&& config.substituted(vars).limits == config.limits
            &&& config.substituted(vars).routing == config.routing
        }),
{
}

/// A text that grows when a pattern is replaced by a longer one is one in which the
/// pattern stands.
proof fn lemma_occurrence_grows(s: Seq<char>, pattern: Seq<char>, by: Seq<char>)
    requires
        pattern.len() > 0,
        by.len() > pattern.len(),
    ensures
        text::replaced(s, pattern, by).len() >= s.len(),
        text::occurs(s, pattern) ==> text::replaced(s, pattern, by).len() > s.len(),
    decreases s.len(),
{
    if s.len() >= pattern.len() {
        if text::has_prefix(s, pattern) {
            lemma_occurrence_grows(s.skip(pattern.len() as int), pattern, by);
        } else {
            let rest = s.skip(1);
            lemma_occurrence_grows(rest, pattern, by);
            if text::occurs(s, pattern) {
                let i = choose|i: int|
                    0 <= i && i + pattern.len() <= s.len() && #[trigger] s.subrange(
                        i,
                        i + pattern.len(),
                    ) == pattern;
                assert(i > 0);
                assert(rest.subrange(i - 1, i - 1 + pattern.len()) =~= s.subrange(
                    i,
                    i + pattern.len(),
                ));
                assert(text::occurs(rest, pattern));
            }
        }
    }
}

/// In a text whose every dollar sign begins a variable in braces, no variable that has a
/// value is named in braces any more once the variables are put in, and one that has none
/// is still named where it was.
pub proof fn law_no_variable_with_a_value_is_left(
    pieces: Seq<Piece>,
    vars: Seq<(Seq<char>, Seq<char>)>,
    name: Seq<char>,
)
    requires
        well_formed_pieces(pieces),
        usable_for(vars, pieces),
        is_name(name),
    ensures
        text::occurs(substituted(text_of(pieces), vars), "${"@ + name + "}"@) ==> value_of(
            vars,
            name,
        ) is None && pieces.contains(Piece::Variable(name)),
        (exists|i: int| 0 <= i < vars.len() && (#[trigger] vars[i]).0 == name) ==> !text::occurs(
            substituted(text_of(pieces), vars),
            "${"@ + name + "}"@,
        ),
{
    let resolved = pieces.map_values(|piece: Piece| piece.resolved(vars));
    let pattern = "${"@ + name + "}"@;
    let longer = pattern.push('x');
    reveal_strlit("${");
    law_each_variable_becomes_its_value(pieces, vars);
    lemma_resolved_is_well_formed(pieces, vars);
    if !resolved.contains(Piece::Variable(name)) {
        lemma_one_variable_in_pieces(resolved, (name, longer));
        let same = resolved.map_values(|piece: Piece| piece.with_value((name, longer)));
        assert forall|i: int| 0 <= i < resolved.len() implies #[trigger] same[i] == resolved[i] by {
            assert(resolved.contains(resolved[i]));
        }
        assert(same =~= resolved);
        lemma_occurrence_grows(text_of(resolved), pattern, longer);
    } else {
        let i = choose|i: int| 0 <= i < resolved.len() && resolved[i] == Piece::Variable(name);
        assert(pieces[i] == Piece::Variable(name));
        assert(pieces.contains(pieces[i]));
    }
    lemma_entry_gives_a_value(vars, name);
}

proof fn lemma_entry_gives_a_value(vars: Seq<(Seq<char>, Seq<char>)>, name: Seq<char>)
    ensures
        (exists|i: int| 0 <= i < vars.len() && (#[trigger] vars[i]).0 == name) ==> value_of(
            vars,
            name,
        ) is Some,
    decreases vars.len(),
{
    if exists|i: int| 0 <= i < vars.len() && (#[trigger] vars[i]).0 == name {
        let i = choose|i: int| 0 <= i < vars.len() && (#[trigger] vars[i]).0 == name;
        let earlier = vars.drop_last();
        lemma_entry_gives_a_value(earlier, name);
        if i < earlier.len() {
            assert(earlier[i].0 == name);
        } else {
            assert(vars.last() == vars[i]);
        }
    }
}

/// What is wrong with a configuration is told: that it has no pool, or what is wrong with
/// its first pool that is not in order. Of a pool the missing name is told first, then
/// the missing command and then the missing instance.
pub proof fn law_first_problem_is_told(config: ConfigView, i: int, pool: PoolView)
    ensures
        config.pools.len() == 0 ==> config.problem() == Some("At least one pool is required"@),
        0 <= i < config.pools.len() && config.pools[i].problem() is Some && (forall|j: int|
            0 <= j < i ==> (#[trigger] config.pools[j]).problem() is None) ==> config.problem()
            == config.pools[i].problem(),
        pool.problem() is None <==> pool.id.len() > 0 && pool.command.len() > 0 && pool.instances
            > 0,
        pool.id.len() == 0 ==> pool.problem() == Some("Pool ID cannot be empty"@),
        pool.id.len() > 0 && pool.command.len() == 0 ==> pool.problem() == Some(
            "Pool '"@ + pool.id + "' command cannot be empty"@,
        ),
        pool.id.len() > 0 && pool.command.len() > 0 && pool.instances == 0 ==> pool.problem()
            == Some("Pool '"@ + pool.id + "' must have at least 1 instance"@),
{
    if 0 <= i < config.pools.len() && config.pools[i].problem() is Some && (forall|j: int|
        0 <= j < i ==> (#[trigger] config.pools[j]).problem() is None) {
        lemma_first_problem(config.pools, i);
    }
}

proof fn lemma_first_problem(pools: Seq<PoolView>, i: int)
    requires
        0 <= i < pools.len(),
        pools[i].problem() is Some,
        forall|j: int| 0 <= j < i ==> (#[trigger] pools[j]).problem() is None,
    ensures
        pools_problem(pools) == pools[i].problem(),
    decreases pools.len(),
{
    if i > 0 {
        let rest = pools.skip(1);
        assert(pools[0].problem() is None);
        assert forall|j: int| 0 <= j < i - 1 implies (#[trigger] rest[j]).problem() is None by {
            assert(rest[j] == pools[j + 1]);
        }
        lemma_first_problem(rest, i - 1);
    }
}

/// The limits that are used where no others are given, and the field that names the
/// session.
pub proof fn law_usual_limits_and_routing()
    ensures
        default_limits().max_input_buffer == 1024 * 1024,
        default_limits().max_output_queue == 4 * 1024 * 1024,
        default_limits().max_restarts == 5,
        default_limits().restart_window_sec == 60,
        default_limits().drain_timeout_sec == 30,
        default_limits().backpressure_timeout_sec == 60,
        default_routing().session_id_field == "sessionId"@,
        default_routing().default_pool is None,
{
}

/// The configuration for development builds and runs one server from its sources, with
/// the directory that was given and much logging, and restarts it often.
pub proof fn law_development_runs_from_sources(codex_home: Seq<char>, key: Seq<char>)
    ensures
        ({
            let config = ConfigView::development(codex_home);
            let pool = config.pools[0];
            &&& config.pools.len() == 1
            &&& pool.id == "app-server"@
            &&& pool.command == "cargo"@
            &&& pool.args.len() == 5
            &&& pool.args[0] == "run"@ && pool.args[1] == "-p"@
            &&& pool.args[2] == "codex-app-server"@ && pool.args[3] == "--"@
            &&& pool.args[4] == "--worker"@
            &&& pool.instances == 1
            &&& pool.cwd is None
            &&& pool.env.contains_key(key) <==> key == "CODEX_HOME"@ || key == "RUST_LOG"@
            &&& pool.env["CODEX_HOME"@] == codex_home
            &&& pool.env["RUST_LOG"@] == "debug"@
            &&& config.limits.max_restarts == 10
            &&& config.limits.restart_window_sec == 300
            &&& config.limits.max_input_buffer == default_limits().max_input_buffer
            &&& config.limits.max_output_queue == default_limits().max_output_queue
            &&& config.limits.drain_timeout_sec == default_limits().drain_timeout_sec
            &&& config.limits.backpressure_timeout_sec
                == default_limits().backpressure_timeout_sec
            &&& config.routing == default_routing()
        }),
{
    reveal_strlit("CODEX_HOME");
    reveal_strlit("RUST_LOG");
    assert("CODEX_HOME"@.len() == 10);
    assert("RUST_LOG"@.len() == 8);
}

/// The configuration for production runs the program at the path that was given, as often
/// as was asked for, with little logging and the usual limits, and it takes the messages
/// that belong nowhere else.
pub proof fn law_production_runs_the_program(
    path: Seq<char>,
    instances: u32,
    key: Seq<char>,
)
    ensures
        ({
            let config = ConfigView::production(path, instances);
            let pool = config.pools[0];
            &&& config.pools.len() == 1
            &&& pool.id == "app-server"@
            &&& pool.command == path
            &&& pool.args.len() == 1 && pool.args[0] == "--worker"@
            &&& pool.instances == instances
            &&& pool.cwd is None
            &&& pool.env.contains_key(key) <==> key == "RUST_LOG"@
            &&& pool.env["RUST_LOG"@] == "warn"@
            &&& config.limits == default_limits()
            &&& config.routing.session_id_field == "sessionId"@
            &&& config.routing.default_pool == Some("app-server"@)
        }),
{
}

/// An error is told by its sort and then by the whole of its text.
pub proof fn law_config_errors_are_told_in_full(text: Seq<char>)
    ensures
        ConfigErrorView::Invalid(text).text() == "Invalid configuration: "@ + text,
        ConfigErrorView::Io(text).text() == "I/O error: "@ + text,
        ConfigErrorView::Json(text).text() == "JSON error: "@ + text,
{
}

/// What is said of a configuration is said of what it holds.
pub proof fn law_configuration_is_what_it_holds(
    config: StdioBusConfig,
    vars: Environment,
    error: ConfigError,
    i: int,
    k: int,
    key: Seq<char>,
)
    ensures
        config@.pools.len() == config.pools@.len(),
        config@.limits == config.limits,
        config@.routing.session_id_field == config.routing.session_id_field@,
        config@.routing.default_pool == message::text_view(config.routing.default_pool),
        0 <= i < config.pools@.len() ==> {
            let seen = config@.pools[i];
            let held = config.pools@[i];
            &&& seen.id == held.id@
            &&& seen.command == held.command@
            &&& seen.args.len() == held.args@.len()
            &&& 0 <= k < held.args@.len() ==> seen.args[k] == held.args@[k]@
            &&& seen.instances == held.instances
            &&& seen.env.contains_key(key) <==> held.env@.contains_key(key)
            &&& held.env@.contains_key(key) ==> seen.env[key] == held.env@[key]@
            &&& seen.cwd == message::text_view(held.cwd)
        },
        environment_view(vars@).len() == vars@.len(),
        0 <= i < vars@.len() ==> environment_view(vars@)[i] == (vars@[i].0@, vars@[i].1@),
        match (error@, error) {
            (ConfigErrorView::Invalid(seen), ConfigError::Invalid(held)) => seen == held@,
            (ConfigErrorView::Io(seen), ConfigError::Io(held)) => seen == held@,
            (ConfigErrorView::Json(seen), ConfigError::Json(held)) => seen == held@,
            _ => false,
        },
{
}

/// After the substitution no text in any pool names a variable in braces that has a value.
/// This speaks of a text in the pool whose every dollar sign begins a variable in braces.
pub proof fn law_no_pool_names_a_variable_with_a_value(
    config: ConfigView,
    vars: Seq<(Seq<char>, Seq<char>)>,
    i: int,
    k: int,
    key: Seq<char>,
    pieces: Seq<Piece>,
    n: int,
)
    requires
        0 <= i < config.pools.len(),
        well_formed_pieces(pieces),
        usable_for(vars, pieces),
        0 <= n < vars.len(),
    ensures
        ({
            let before = config.pools[i];
            let after = config.substituted(vars).pools[i];
            let named = "${"@ + vars[n].0 + "}"@;
            &&& before.command == text_of(pieces) ==> !text::occurs(after.command, named)
            &&& 0 <= k < before.args.len() && before.args[k] == text_of(pieces) ==> !text::occurs(
                after.args[k],
                named,
            )
            &&& before.cwd == Some(text_of(pieces)) ==> (after.cwd matches Some(cwd)
                && !text::occurs(cwd, named))
            &&& before.env.contains_key(key) && before.env[key] == text_of(pieces)
                ==> !text::occurs(after.env[key], named)
        }),
{
    assert(is_name(vars[n].0));
    law_every_pool_is_substituted(config, vars, i, k, key);
    law_no_variable_with_a_value_is_left(pieces, vars, vars[n].0);
}

} // verus!
