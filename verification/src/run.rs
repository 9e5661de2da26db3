use crate::config::{Config, ConfigView, ProcessGroup, ProcessGroupView};
use crate::models::gm_model::{model_of_config, GModel, GModelView};
use vstd::prelude::*;

verus! {

/// Asks the model once for each task group of a configuration.
pub struct Processor {
    config: Config,
}

impl View for Processor {
    type V = ConfigView;

    closed spec fn view(&self) -> ConfigView {
        self.config@
    }
}

/// The model and the question that a group is handled with: the
/// configuration's model, preset with the group's prompt, and an empty
/// question.
pub open spec fn group_request_of(config: ConfigView, group: ProcessGroupView) -> (
    GModelView,
    Seq<char>,
) {
    (
        GModelView {
            prompt: group.prompt,
            ..model_of_config(config.model, config.api_key, config.url)
        },
        Seq::empty(),
    )
}

impl Processor {
    /// A processor for the configuration.
    pub fn new(config: Config) -> (processor: Self)
        ensures
            processor@ == config@,
    {
        Processor { config }
    }

    /// The model and the question that `group` is handled with.
    pub fn handle_group(&self, group: &ProcessGroup) -> (request: (GModel, String))
        ensures
            (request.0@, request.1@) == group_request_of(self@, group@),
            request.0@.model == self@.model,
            request.0@.api_key == self@.api_key,
            request.0@.url == self@.url,
            request.0@.prompt == group@.prompt,
            request.1@.len() == 0,
    {
        let question = String::new();
        let mut model = GModel::new(&self.config);
        model.set_prompt(group.prompt.clone());
        (model, question)
    }

    /// One request per task group, in the order of the groups.
    pub fn process(&self) -> (requests: Vec<(GModel, String)>)
        ensures
            requests@.len() == self@.process_group.len(),
            forall|i: int|
                0 <= i < requests@.len() ==> (#[trigger] requests@[i].0@, requests@[i].1@)
                    == group_request_of(self@, self@.process_group[i]),
            forall|i: int|
                0 <= i < requests@.len() ==> #[trigger] requests@[i].0@.model == self@.model
                    && requests@[i].0@.api_key == self@.api_key && requests@[i].0@.url
                    == self@.url && requests@[i].0@.prompt == self@.process_group[i].prompt,
    {
        let mut requests: Vec<(GModel, String)> = Vec::new();
        let n = self.config.process_group.len();
        for i in 0..n
            invariant
                n == self@.process_group.len(),
                requests@.len() == i,
                forall|j: int|
                    0 <= j < i ==> (#[trigger] requests@[j].0@, requests@[j].1@)
                        == group_request_of(self@, self@.process_group[j]),
        {
            let request = self.handle_group(&self.config.process_group[i]);
            requests.push(request);
        }
        requests
    }
}

/// A group is handled with the configuration's own model, key and endpoint,
/// preset with that group's prompt, and an empty question.
pub proof fn group_request_is_the_configured_model(config: ConfigView, group: ProcessGroupView)
    ensures
        group_request_of(config, group).0.model == config.model,
        group_request_of(config, group).0.api_key == config.api_key,
        group_request_of(config, group).0.url == config.url,
        group_request_of(config, group).0.prompt == group.prompt,
        group_request_of(config, group).1.len() == 0,
{
}

} // verus!
