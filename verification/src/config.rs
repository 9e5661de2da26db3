use vstd::prelude::*;

verus! {

/// Name of the chat model that a fresh configuration uses.
pub const MODEL_NAME: &'static str = "glm-4-flash";

/// Chat completion endpoint that a fresh configuration uses.
pub const API_URL: &'static str = "https://open.bigmodel.cn/api/paas/v4/chat/completions";

/// System prompt of the group in a fresh configuration.
pub const PROMPT: &'static str = "You are an AI assistant. You will be given a task.";

/// File that the configuration is read from when no path is given.
pub const CONFIG_FILE: &'static str = "config.yaml";

/// One task group: a name (its route on the relay server), a schedule, the
/// system prompt that presets the model, and the stream script to run.
#[derive(Clone, Debug)]
pub struct ProcessGroup {
    pub name: String,
    pub cron: String,
    pub prompt: String,
    pub stream: String,
}

/// The abstract value of a `ProcessGroup`: its four texts.
pub struct ProcessGroupView {
    pub name: Seq<char>,
    pub cron: Seq<char>,
    pub prompt: Seq<char>,
    pub stream: Seq<char>,
}

impl View for ProcessGroup {
    type V = ProcessGroupView;

    open spec fn view(&self) -> ProcessGroupView {
        ProcessGroupView {
            name: self.name@,
            cron: self.cron@,
            prompt: self.prompt@,
            stream: self.stream@,
        }
    }
}

/// The whole workflow configuration.
#[derive(Clone, Debug)]
pub struct Config {
    pub model: String,
    pub api_key: String,
    pub url: String,
    pub server: String,
    pub process_group: Vec<ProcessGroup>,
}

/// The abstract value of a `Config`.
pub struct ConfigView {
    pub model: Seq<char>,
    pub api_key: Seq<char>,
    pub url: Seq<char>,
    pub server: Seq<char>,
    pub process_group: Seq<ProcessGroupView>,
}

impl View for Config {
    type V = ConfigView;

    open spec fn view(&self) -> ConfigView {
        ConfigView {
            model: self.model@,
            api_key: self.api_key@,
            url: self.url@,
            server: self.server@,
            process_group: self.process_group@.map_values(|g: ProcessGroup| g@),
        }
    }
}

/// The group that a fresh configuration holds.
pub open spec fn default_group_view() -> ProcessGroupView {
    ProcessGroupView {
        name: "default"@,
        cron: "now"@,
        prompt: PROMPT@,
        stream: "/path/to/script.py"@,
    }
}

/// The value of a fresh configuration.
pub open spec fn default_config_view() -> ConfigView {
    ConfigView {
        model: MODEL_NAME@,
        api_key: ""@,
        url: API_URL@,
        server: "127.0.0.1:6000"@,
        process_group: seq![default_group_view()],
    }
}

impl Default for Config {
    fn default() -> (config: Self)
        ensures
            config@ == default_config_view(),
    {
        let default_process_group = ProcessGroup {
            name: String::from_str("default"),
            cron: String::from_str("now"),
            prompt: String::from_str(PROMPT),
            stream: String::from_str("/path/to/script.py"),
        };
        let mut groups: Vec<ProcessGroup> = Vec::new();
        groups.push(default_process_group);
        let config = Config {
            model: String::from_str(MODEL_NAME),
            api_key: String::from_str(""),
            url: String::from_str(API_URL),
            process_group: groups,
            server: String::from_str("127.0.0.1:6000"),
        };
        assert(config@.process_group =~= seq![default_group_view()]);
        config
    }
}

impl Config {
    /// Replaces the model name, and nothing else.
    pub fn set_model_name(&mut self, model_name: &str)
        ensures
            final(self)@ == (ConfigView { model: model_name@, ..old(self)@ }),
    {
        self.model = model_name.to_string();
        proof {
            vstd::string::to_string_from_display_ensures_for_str(model_name, self.model);
        }
    }

    /// Replaces the endpoint URL, and nothing else.
    pub fn set_url(&mut self, url: &str)
        ensures
            final(self)@ == (ConfigView { url: url@, ..old(self)@ }),
    {
        self.url = url.to_string();
        proof {
            vstd::string::to_string_from_display_ensures_for_str(url, self.url);
        }
    }

    /// The configuration itself.
    pub fn get_config(&self) -> (config: &Config)
        ensures
            config == self,
    {
        self
    }

    /// The file the configuration is read from: the path given on the
    /// command line where there is one, else `CONFIG_FILE`.
    pub fn config_path(cli_config: Option<String>) -> (path: String)
        ensures
            path@ == (match cli_config {
                Some(p) => p@,
                None => CONFIG_FILE@,
            }),
    {
        match cli_config {
            Some(path) => path,
            None => String::from_str(CONFIG_FILE),
        }
    }

    /// What to do once the configuration file has been looked for: parse
    /// its text where it was read; where it does not exist, write a fresh
    /// configuration to `CONFIG_FILE` and fail; on any other read error, fail.
    pub fn read_step(probe: FileProbe) -> (step: ConfigStep)
        ensures
            step == read_step_of(probe),
    {
        match probe {
            FileProbe::Present => ConfigStep::Proceed,
            FileProbe::Missing => ConfigStep::WriteDefaultAndFail("error: config file not found"),
            FileProbe::Failed => ConfigStep::Fail("error: other error occurred"),
        }
    }
}

/// What was found where a file was looked for.
#[derive(Clone, Copy, Debug, PartialEq, Eq, Structural)]
pub enum FileProbe {
    /// The file is there (and, where it was read, its text was read).
    Present,
    /// There is no such file.
    Missing,
    /// Looking for it failed for another reason (permissions, ...).
    Failed,
}

/// What the caller does next, after a look for the configuration file.
#[derive(Debug)]
pub enum ConfigStep {
    /// Go on: the file is there.
    Proceed,
    /// Write a fresh configuration to `CONFIG_FILE`, then fail with the message.
    WriteDefaultAndFail(&'static str),
    /// Fail with the message.
    Fail(&'static str),
}

/// The step of `Config::read_step`.
pub open spec fn read_step_of(probe: FileProbe) -> ConfigStep {
    match probe {
        FileProbe::Present => ConfigStep::Proceed,
        FileProbe::Missing => ConfigStep::WriteDefaultAndFail("error: config file not found"),
        FileProbe::Failed => ConfigStep::Fail("error: other error occurred"),
    }
}

/// What to do once the default configuration file has been looked for: where
/// it exists there is nothing to do; where it does not, write a fresh
/// configuration and fail asking for a path; on any other error, fail.
pub fn generate_default_config_step(probe: FileProbe) -> (step: ConfigStep)
    ensures
        step == generate_default_step_of(probe),
{
    match probe {
        FileProbe::Present => ConfigStep::Proceed,
        FileProbe::Missing => ConfigStep::WriteDefaultAndFail(
            "error: config file not provided. Please provide a config file path via `--config <path>",
        ),
        FileProbe::Failed => ConfigStep::Fail("error: other error occurred"),
    }
}

/// The step of `generate_default_config_step`.
pub open spec fn generate_default_step_of(probe: FileProbe) -> ConfigStep {
    match probe {
        FileProbe::Present => ConfigStep::Proceed,
        FileProbe::Missing => ConfigStep::WriteDefaultAndFail(
            "error: config file not provided. Please provide a config file path via `--config <path>",
        ),
        FileProbe::Failed => ConfigStep::Fail("error: other error occurred"),
    }
}

/// Only a configuration file that is there lets loading go on; only a
/// missing one makes a fresh configuration be written; any other failure
/// only fails. The same holds when the default file is looked for.
pub proof fn only_a_missing_file_writes_the_default(probe: FileProbe)
    ensures
        read_step_of(probe) is Proceed <==> probe == FileProbe::Present,
        read_step_of(probe) is WriteDefaultAndFail <==> probe == FileProbe::Missing,
        read_step_of(probe) is Fail <==> probe == FileProbe::Failed,
        generate_default_step_of(probe) is Proceed <==> probe == FileProbe::Present,
        generate_default_step_of(probe) is WriteDefaultAndFail <==> probe == FileProbe::Missing,
        generate_default_step_of(probe) is Fail <==> probe == FileProbe::Failed,
{
}

} // verus!
