use crate::config::{Config, ConfigView, ProcessGroupView};
use crate::models::gm_model::{model_of_config, GModel, GModelView};
use vstd::hash_map::StringHashMap;
use vstd::prelude::*;

verus! {

/// The header that carries a job's ID, in replies and in requests.
pub const JOB_ID_HEADER_NAME: &'static str = "Process-ID";

/// The number of characters of a job ID.
pub const JOB_ID_LEN: usize = 10;

/// Whether `c` is an ASCII letter or digit.
pub open spec fn is_ascii_alphanumeric(c: char) -> bool {
    ('0' <= c && c <= '9') || ('A' <= c && c <= 'Z') || ('a' <= c && c <= 'z')
}

/// A job ID: `JOB_ID_LEN` ASCII letters and digits.
pub open spec fn is_job_id(id: Seq<char>) -> bool {
    id.len() == JOB_ID_LEN && forall|i: int| 0 <= i < id.len() ==> is_ascii_alphanumeric(#[trigger] id[i])
}

/// A text of `len` characters drawn with `rand::thread_rng().sample_iter(&Alphanumeric)`.
/// The contract claims what rand's source shows of every outcome: `len`
/// characters, each one of `A-Z`, `a-z`, `0-9`.
#[verifier::external_body]
fn random_alphanumeric(len: usize) -> (text: String)
    ensures
        text@.len() == len,
        forall|i: int| 0 <= i < len ==> is_ascii_alphanumeric(#[trigger] text@[i]),
{
    rand::Rng::sample_iter(rand::thread_rng(), &rand::distributions::Alphanumeric).take(len).map(
        char::from,
    ).collect()
}

/// The code point of `c`, with ASCII upper-case letters taken to lower case.
pub open spec fn fold_ascii_case(c: char) -> u32 {
    let x = c as u32;
    if 65 <= x && x <= 90 {
        (x + 32) as u32
    } else {
        x
    }
}

/// Whether two texts are equal when ASCII case is ignored, as header names
/// are compared.
pub open spec fn eq_ignore_ascii_case(a: Seq<char>, b: Seq<char>) -> bool {
    a.len() == b.len() && forall|i: int| 0 <= i < a.len() ==> #[trigger] fold_ascii_case(a[i]) == fold_ascii_case(b[i])
}

fn fold_char(c: char) -> (x: u32)
    ensures
        x == fold_ascii_case(c),
{
    let x = c as u32;
    if 65 <= x && x <= 90 {
        x + 32
    } else {
        x
    }
}

/// Whether two texts are equal when ASCII case is ignored.
pub fn equal_ignoring_ascii_case(a: &str, b: &str) -> (equal: bool)
    ensures
        equal == eq_ignore_ascii_case(a@, b@),
{
    let n = a.unicode_len();
    if n != b.unicode_len() {
        return false;
    }
    let mut i: usize = 0;
    while i < n
        invariant
            n == a@.len(),
            n == b@.len(),
            i <= n,
            forall|j: int| 0 <= j < i ==> #[trigger] fold_ascii_case(a@[j]) == fold_ascii_case(b@[j]),
        decreases n - i,
    {
        if fold_char(a.get_char(i)) != fold_char(b.get_char(i)) {
            return false;
        }
        i = i + 1;
    }
    true
}

/// One header of an HTTP request.
#[derive(Clone, Debug)]
pub struct HttpHeader {
    pub field: String,
    pub value: String,
}

/// The headers of a request as (name, value) texts.
pub open spec fn headers_view(headers: Seq<HttpHeader>) -> Seq<(Seq<char>, Seq<char>)> {
    headers.map_values(|h: HttpHeader| (h.field@, h.value@))
}

/// Whether the header at `k` is the first one named `name`, case ignored.
pub open spec fn first_named_at(headers: Seq<(Seq<char>, Seq<char>)>, name: Seq<char>, k: int) -> bool {
    &&& 0 <= k < headers.len()
    &&& eq_ignore_ascii_case(headers[k].0, name)
    &&& forall|j: int| 0 <= j < k ==> !eq_ignore_ascii_case(#[trigger] headers[j].0, name)
}

/// Whether no header is named `name`, case ignored.
pub open spec fn none_named(headers: Seq<(Seq<char>, Seq<char>)>, name: Seq<char>) -> bool {
    forall|j: int| 0 <= j < headers.len() ==> !eq_ignore_ascii_case(#[trigger] headers[j].0, name)
}

/// The position of the first header named `name`, case ignored.
pub fn find_header(headers: &Vec<HttpHeader>, name: &str) -> (found: Option<usize>)
    ensures
        match found {
            Some(k) => first_named_at(headers_view(headers@), name@, k as int),
            None => none_named(headers_view(headers@), name@),
        },
{
    let ghost hs = headers_view(headers@);
    for k in 0..headers.len()
        invariant
            hs == headers_view(headers@),
            forall|j: int| 0 <= j < k ==> !eq_ignore_ascii_case(#[trigger] hs[j].0, name@),
    {
        if equal_ignoring_ascii_case(headers[k].field.as_str(), name) {
            return Some(k);
        }
    }
    None
}

/// What the relay server answers to a request.
#[derive(Clone, Debug)]
pub struct Reply {
    /// The body of the answer.
    pub body: String,
    /// The job ID sent back in the `Process-ID` header, where there is one.
    pub job_id: Option<String>,
}

/// What the relay server does with a request to a group's route.
pub enum RequestAction {
    /// Answer right away.
    Reply(Reply),
    /// Ask the model the question, then record the answer under the job ID.
    Ask { model: GModel, question: String, job_id: String },
    /// Hand out the answer recorded under the job ID.
    Collect { job_id: String },
}

/// The abstract value of a `RequestAction`.
pub enum ActionView {
    Reply { body: Seq<char>, id_header: Option<Seq<char>> },
    Ask { model: GModelView, question: Seq<char>, job_id: Seq<char> },
    Collect { job_id: Seq<char> },
}

/// The abstract value of a `Reply`.
pub open spec fn reply_view(reply: Reply) -> (Seq<char>, Option<Seq<char>>) {
    (reply.body@, match reply.job_id {
        Some(id) => Some(id@),
        None => None,
    })
}

/// The abstract value of a `RequestAction`.
pub open spec fn action_view(action: RequestAction) -> ActionView {
    match action {
        RequestAction::Reply(reply) => ActionView::Reply {
            body: reply_view(reply).0,
            id_header: reply_view(reply).1,
        },
        RequestAction::Ask { model, question, job_id } => ActionView::Ask {
            model: model@,
            question: question@,
            job_id: job_id@,
        },
        RequestAction::Collect { job_id } => ActionView::Collect { job_id: job_id@ },
    }
}

/// The relay between the stream scripts and the chat model: one route per
/// task group, and the answers that wait to be collected, by job ID.
pub struct WorkflowServer {
    config: Config,
    running: bool,
    answer_cache: StringHashMap<String>,
}

/// The abstract value of a `WorkflowServer`.
pub struct ServerView {
    pub config: ConfigView,
    pub running: bool,
    pub answers: Map<Seq<char>, Seq<char>>,
}

impl WorkflowServer {
    /// Every answer that waits is kept under a job ID.
    #[verifier::type_invariant]
    closed spec fn keys_are_job_ids(self) -> bool {
        forall|k: Seq<char>| #[trigger] self.answer_cache@.contains_key(k) ==> is_job_id(k)
    }
}

/// Whether every answer that waits in `s` is kept under a job ID.
pub open spec fn waiting_under_job_ids(s: ServerView) -> bool {
    forall|k: Seq<char>| #[trigger] s.answers.contains_key(k) ==> is_job_id(k)
}

impl View for WorkflowServer {
    type V = ServerView;

    closed spec fn view(&self) -> ServerView {
        ServerView {
            config: self.config@,
            running: self.running,
            answers: self.answer_cache@.map_values(|a: String| a@),
        }
    }
}

/// The route of a group: `/` and its name.
pub open spec fn route_of(g: ProcessGroupView) -> Seq<char> {
    "/"@ + g.name
}

/// Whether `i` is the first group whose route is `url`.
pub open spec fn first_route_at(groups: Seq<ProcessGroupView>, url: Seq<char>, i: int) -> bool {
    &&& 0 <= i < groups.len()
    &&& route_of(groups[i]) == url
    &&& forall|j: int| 0 <= j < i ==> route_of(#[trigger] groups[j]) != url
}

/// Whether no group has the route `url`.
pub open spec fn no_route(groups: Seq<ProcessGroupView>, url: Seq<char>) -> bool {
    forall|j: int| 0 <= j < groups.len() ==> route_of(#[trigger] groups[j]) != url
}

/// The model that a group's questions are put to: the configuration's model,
/// preset with the group's prompt.
pub open spec fn group_model(config: ConfigView, g: ProcessGroupView) -> GModelView {
    GModelView { prompt: g.prompt, ..model_of_config(config.model, config.api_key, config.url) }
}

/// Whether `action` is what the server does with a request with the method,
/// body and headers given, to the route of group `i`.
pub open spec fn handles(
    s: ServerView,
    i: int,
    method: Seq<char>,
    body: Seq<char>,
    headers: Seq<(Seq<char>, Seq<char>)>,
    action: ActionView,
) -> bool {
    if method == "POST"@ {
        &&& action is Ask
        &&& action->Ask_model == group_model(s.config, s.config.process_group[i])
        &&& action->Ask_question == body
        &&& is_job_id(action->Ask_job_id)
    } else if method == "GET"@ {
        ||| exists|k: int|
            first_named_at(headers, JOB_ID_HEADER_NAME@, k) && action == (ActionView::Collect {
                job_id: #[trigger] headers[k].1,
            })
        ||| none_named(headers, JOB_ID_HEADER_NAME@) && action == (ActionView::Reply {
            body: "Not Found ID"@,
            id_header: None,
        })
    } else {
        action == (ActionView::Reply { body: "Unsupported method"@, id_header: None })
    }
}

/// The server once the answer to job `id` has been recorded.
pub open spec fn with_answer(s: ServerView, id: Seq<char>, answer: Seq<char>) -> ServerView {
    ServerView { answers: s.answers.insert(id, answer), ..s }
}

/// The server once the answer to job `id` has been handed out.
pub open spec fn without_answer(s: ServerView, id: Seq<char>) -> ServerView {
    ServerView { answers: s.answers.remove(id), ..s }
}

/// The reply to a POST whose answer was recorded: the group's name and the
/// job ID in the body, and the job ID in the `Process-ID` header.
pub open spec fn posted_reply(name: Seq<char>, id: Seq<char>) -> (Seq<char>, Option<Seq<char>>) {
    ("Process group "@ + name + " is running, ID: "@ + id, Some(id))
}

impl WorkflowServer {
    /// A server for the configuration, not yet started, with no answers.
    pub fn new(config: Config) -> (server: WorkflowServer)
        ensures
            server@ == (ServerView { config: config@, running: false, answers: Map::empty() }),
            waiting_under_job_ids(server@),
    {
        let server = WorkflowServer { config, running: false, answer_cache: StringHashMap::new() };
        assert(server@.answers =~= Map::<Seq<char>, Seq<char>>::empty());
        server
    }

    /// Whether the server has been started.
    pub fn is_running(&self) -> (running: bool)
        ensures
            running == self@.running,
    {
        self.running
    }

    /// Starts the server, once: a second start fails and changes nothing.
    pub fn start_server(&mut self) -> (started: Result<bool, &'static str>)
        ensures
            old(self)@.running ==> started == Err::<bool, &'static str>("Server is already running")
                && final(self)@ == old(self)@,
            !old(self)@.running ==> started == Ok::<bool, &'static str>(true) && final(self)@
                == (ServerView { running: true, ..old(self)@ }),
            waiting_under_job_ids(final(self)@),
    {
        proof {
            use_type_invariant(&*self);
        }
        if self.running {
            return Err("Server is already running");
        }
        self.running = true;
        Ok(true)
    }

    /// The group whose route is `url` (the first one, where several share
    /// it); where no group has that route, the reply `Route not found`.
    pub fn route(&self, url: &String) -> (group: Result<usize, Reply>)
        ensures
            group matches Ok(i) ==> url@ == "/"@ + self@.config.process_group[i as int].name
                && forall|j: int|
                0 <= j < i ==> url@ != "/"@ + #[trigger] self@.config.process_group[j].name,
            group is Err ==> forall|j: int|
                0 <= j < self@.config.process_group.len() ==> url@ != "/"@
                    + #[trigger] self@.config.process_group[j].name,
            match group {
                Ok(i) => first_route_at(self@.config.process_group, url@, i as int),
                Err(reply) => no_route(self@.config.process_group, url@) && reply_view(reply)
                    == ("Route not found"@, None::<Seq<char>>),
            },
    {
        let groups = &self.config.process_group;
        let ghost gs = self@.config.process_group;
        for i in 0..groups.len()
            invariant
                gs == self@.config.process_group,
                gs == groups@.map_values(|g: crate::config::ProcessGroup| g@),
                forall|j: int| 0 <= j < i ==> route_of(#[trigger] gs[j]) != url@,
        {
            let route = String::from_str("/").concat(groups[i].name.as_str());
            if route == *url {
                return Ok(i);
            }
        }
        Err(Reply { body: String::from_str("Route not found"), job_id: None })
    }

    /// What to do with a request to the route of group `group_index`: a
    /// POST asks the group's model the body, under a fresh job ID; a GET
    /// collects the answer of the job named in its `Process-ID` header; any
    /// other method is refused.
    pub fn handle_request(
        &self,
        group_index: usize,
        method: &String,
        body: String,
        headers: &Vec<HttpHeader>,
    ) -> (action: RequestAction)
        requires
            group_index < self@.config.process_group.len(),
        ensures
            handles(
                self@,
                group_index as int,
                method@,
                body@,
                headers_view(headers@),
                action_view(action),
            ),
    {
        let post = String::from_str("POST");
        let get = String::from_str("GET");
        if *method == post {
            let job_id = random_alphanumeric(JOB_ID_LEN);
            self.post_action(group_index, body, job_id)
        } else if *method == get {
            match find_header(headers, JOB_ID_HEADER_NAME) {
                Some(k) => {
                    let job_id = headers[k].value.clone();
                    let action = RequestAction::Collect { job_id };
                    assert(first_named_at(headers_view(headers@), JOB_ID_HEADER_NAME@, k as int)
                        && action_view(action) == (ActionView::Collect {
                        job_id: headers_view(headers@)[k as int].1,
                    }));
                    action
                },
                None => RequestAction::Reply(
                    Reply { body: String::from_str("Not Found ID"), job_id: None },
                ),
            }
        } else {
            RequestAction::Reply(Reply { body: String::from_str("Unsupported method"), job_id: None })
        }
    }

    /// What a POST with the body to the route of group `group_index` does,
    /// under the job ID drawn for it: ask the group's model the body.
    pub fn post_action(&self, group_index: usize, body: String, job_id: String) -> (action:
        RequestAction)
        requires
            group_index < self@.config.process_group.len(),
        ensures
            action_view(action) == (ActionView::Ask {
                model: group_model(self@.config, self@.config.process_group[group_index as int]),
                question: body@,
                job_id: job_id@,
            }),
            action_view(action)->Ask_model.model == self@.config.model,
            action_view(action)->Ask_model.api_key == self@.config.api_key,
            action_view(action)->Ask_model.url == self@.config.url,
            action_view(action)->Ask_model.prompt == self@.config.process_group[group_index as int].prompt,
    {
        let mut model = GModel::new(&self.config);
        model.set_prompt(self.config.process_group[group_index].prompt.clone());
        RequestAction::Ask { model, question: body, job_id }
    }

    /// Records the model's answer to job `job_id` of group `group_index`, and
    /// says where to collect it.
    pub fn complete_job(&mut self, group_index: usize, job_id: String, answer: String) -> (reply:
        Reply)
        requires
            group_index < old(self)@.config.process_group.len(),
            is_job_id(job_id@),
        ensures
            final(self)@ == with_answer(old(self)@, job_id@, answer@),
            waiting_under_job_ids(final(self)@),
            reply_view(reply) == posted_reply(
                old(self)@.config.process_group[group_index as int].name,
                job_id@,
            ),
            reply.job_id matches Some(id) && id@ == job_id@,
    {
        let body = String::from_str("Process group ").concat(
            self.config.process_group[group_index].name.as_str(),
        ).concat(" is running, ID: ").concat(job_id.as_str());
        let reply = Reply { body, job_id: Some(job_id.clone()) };
        proof {
            use_type_invariant(&*self);
        }
        let mut cache = StringHashMap::new();
        std::mem::swap(&mut cache, &mut self.answer_cache);
        cache.insert(job_id, answer);
        self.answer_cache = cache;
        assert(self@.answers =~= old(self)@.answers.insert(job_id@, answer@));
        reply
    }

    /// Whether an answer waits under the job ID.
    pub fn has_answer(&self, job_id: &str) -> (waiting: bool)
        ensures
            waiting == self@.answers.contains_key(job_id@),
            waiting ==> is_job_id(job_id@),
            waiting_under_job_ids(self@),
    {
        proof {
            use_type_invariant(self);
        }
        self.answer_cache.contains_key(job_id)
    }

    /// Hands out the answer recorded under the job ID, and forgets it.
    pub fn take_answer(&mut self, job_id: &str) -> (answer: String)
        requires
            old(self)@.answers.contains_key(job_id@),
        ensures
            answer@ == old(self)@.answers[job_id@],
            final(self)@ == without_answer(old(self)@, job_id@),
            waiting_under_job_ids(final(self)@),
    {
        proof {
            use_type_invariant(&*self);
        }
        let answer = match self.answer_cache.get(job_id) {
            Some(a) => a.clone(),
            None => String::new(),
        };
        let mut cache = StringHashMap::new();
        std::mem::swap(&mut cache, &mut self.answer_cache);
        cache.remove(job_id);
        self.answer_cache = cache;
        assert(self@.answers =~= old(self)@.answers.remove(job_id@));
        answer
    }
}

/// The answer recorded for a POST is what a later GET collects: where the
/// first `Process-ID` header of a GET to a group's route names the job ID
/// that the POST's reply carried, the GET collects that job, the answer
/// waiting under it is the one recorded, and once it is handed out no answer
/// waits under that ID while all other answers stay as they were.
pub proof fn posted_answer_is_collected(
    s: ServerView,
    i: int,
    name: Seq<char>,
    job_id: Seq<char>,
    answer: Seq<char>,
    body: Seq<char>,
    headers: Seq<(Seq<char>, Seq<char>)>,
    k: int,
    action: ActionView,
)
    requires
        0 <= i < s.config.process_group.len(),
        first_named_at(headers, JOB_ID_HEADER_NAME@, k),
        Some(headers[k].1) == posted_reply(name, job_id).1,
        handles(with_answer(s, job_id, answer), i, "GET"@, body, headers, action),
    ensures
        action == (ActionView::Collect { job_id }),
        with_answer(s, job_id, answer).answers.contains_key(job_id),
        with_answer(s, job_id, answer).answers[job_id] == answer,
        !without_answer(with_answer(s, job_id, answer), job_id).answers.contains_key(job_id),
        forall|other: Seq<char>|
            other != job_id ==> #[trigger] without_answer(
                with_answer(s, job_id, answer),
                job_id,
            ).answers.contains_key(other) == s.answers.contains_key(other),
        forall|other: Seq<char>|
            other != job_id && s.answers.contains_key(other) ==> #[trigger] without_answer(
                with_answer(s, job_id, answer),
                job_id,
            ).answers[other] == s.answers[other],
{
    reveal_strlit("GET");
    reveal_strlit("POST");
    assert("GET"@.len() != "POST"@.len());
    assert("GET"@ != "POST"@);
    if none_named(headers, JOB_ID_HEADER_NAME@) {
        assert(!eq_ignore_ascii_case(headers[k].0, JOB_ID_HEADER_NAME@));
    }
    let k2 = choose|k2: int|
        first_named_at(headers, JOB_ID_HEADER_NAME@, k2) && action == (ActionView::Collect {
            job_id: #[trigger] headers[k2].1,
        });
    if k2 < k {
        assert(!eq_ignore_ascii_case(headers[k2].0, JOB_ID_HEADER_NAME@));
    } else if k < k2 {
        assert(!eq_ignore_ascii_case(headers[k].0, JOB_ID_HEADER_NAME@));
    }
}

/// Recording one job's answer, or handing it out, leaves the configuration,
/// the running state and every other job's answer as they were.
pub proof fn other_jobs_unaffected(s: ServerView, job_id: Seq<char>, answer: Seq<char>, other: Seq<char>)
    requires
        other != job_id,
    ensures
        with_answer(s, job_id, answer).config == s.config,
        with_answer(s, job_id, answer).running == s.running,
        without_answer(s, job_id).config == s.config,
        without_answer(s, job_id).running == s.running,
        with_answer(s, job_id, answer).answers.contains_key(other) == s.answers.contains_key(other),
        without_answer(s, job_id).answers.contains_key(other) == s.answers.contains_key(other),
        s.answers.contains_key(other) ==> with_answer(s, job_id, answer).answers[other]
            == s.answers[other] && without_answer(s, job_id).answers[other] == s.answers[other],
{
}

/// Every answer that waits is kept under a job ID: the server starts with
/// none, a POST records its answer under the job ID drawn for it, and a GET
/// only takes answers away.
pub proof fn waiting_keys_stay_job_ids(s: ServerView, job_id: Seq<char>, answer: Seq<char>, other: Seq<char>)
    requires
        waiting_under_job_ids(s),
        is_job_id(job_id),
    ensures
        waiting_under_job_ids(with_answer(s, job_id, answer)),
        waiting_under_job_ids(without_answer(s, other)),
{
}

/// The model that a group's questions are put to is the configuration's own
/// model, with its key and endpoint, preset with the group's prompt.
pub proof fn group_model_is_the_configured_one(config: ConfigView, g: ProcessGroupView)
    ensures
        group_model(config, g).model == config.model,
        group_model(config, g).api_key == config.api_key,
        group_model(config, g).url == config.url,
        group_model(config, g).prompt == g.prompt,
{
}

/// A group's route is `/` followed by its name, character for character.
pub proof fn route_is_slash_then_name(g: ProcessGroupView)
    ensures
        route_of(g).len() == g.name.len() + 1,
        route_of(g)[0] == '/',
        forall|i: int| 0 <= i < g.name.len() ==> #[trigger] route_of(g)[i + 1] == g.name[i],
{
    reveal_strlit("/");
}

/// A request to `/` followed by a group's name reaches the first group with
/// that name, and no group with another name.
pub proof fn named_route_reaches_first_group(groups: Seq<ProcessGroupView>, i: int)
    requires
        0 <= i < groups.len(),
        forall|j: int| 0 <= j < i ==> (#[trigger] groups[j]).name != groups[i].name,
    ensures
        first_route_at(groups, "/"@ + groups[i].name, i),
        forall|j: int|
            0 <= j < groups.len() && (#[trigger] groups[j]).name != groups[i].name ==> route_of(
                groups[j],
            ) != "/"@ + groups[i].name,
{
    reveal_strlit("/");
    assert forall|j: int|
        0 <= j < groups.len() && (#[trigger] groups[j]).name != groups[i].name implies route_of(
            groups[j],
        ) != "/"@ + groups[i].name by {
        if route_of(groups[j]) == "/"@ + groups[i].name {
            assert(groups[j].name =~= route_of(groups[j]).subrange(1, route_of(groups[j]).len() as int));
            assert(groups[i].name =~= ("/"@ + groups[i].name).subrange(1, route_of(groups[j]).len() as int));
        }
    }
}

/// Header names are compared ignoring ASCII case and nothing else: two
/// characters match exactly when they are equal or are the upper- and
/// lower-case forms of one ASCII letter.
pub proof fn header_names_fold_only_ascii_case(c: char, d: char)
    ensures
        fold_ascii_case(c) == fold_ascii_case(d) <==> (c == d || ('A' <= c && c <= 'Z' && d as u32
            == c as u32 + 32) || ('A' <= d && d <= 'Z' && c as u32 == d as u32 + 32)),
{
}

/// The reply to a POST names the group and ends with the job ID, which it
/// also carries in the `Process-ID` header.
pub proof fn posted_reply_names_group_and_job(name: Seq<char>, id: Seq<char>)
    ensures
        posted_reply(name, id).1 == Some(id),
        posted_reply(name, id).0.subrange(0, "Process group "@.len() as int) == "Process group "@,
        posted_reply(name, id).0.subrange(
            "Process group "@.len() as int,
            ("Process group "@.len() + name.len()) as int,
        ) == name,
        posted_reply(name, id).0.subrange(
            posted_reply(name, id).0.len() - id.len(),
            posted_reply(name, id).0.len() as int,
        ) == id,
{
    let p = "Process group "@;
    let body = posted_reply(name, id).0;
    assert(body.subrange(0, p.len() as int) =~= p);
    assert(body.subrange(p.len() as int, (p.len() + name.len()) as int) =~= name);
    assert(body.subrange(body.len() - id.len(), body.len() as int) =~= id);
}

} // verus!
