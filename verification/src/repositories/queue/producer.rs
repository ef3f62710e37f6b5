//! The producers' choice of topic: a send goes to the topic set last, and
//! fails while none is set; users are announced on the topic they were
//! set up with. Serialising a payload and sending the record are the
//! caller's.
use crate::domain::User;
use crate::errors::ProducerError;
use crate::models::queue::QueueUser;
use vstd::prelude::*;
use vstd::utf8::*;

verus! {

/// A record to send: its topic and its value.
#[derive(Debug)]
pub struct ProducerRecord {
    pub topic: String,
    pub value: Vec<u8>,
}

/// The record that sending `data` makes, given the topic set last: the
/// UTF-8 of the data to that topic, or `MissingTopic` while none is set.
pub open spec fn record_spec(topic: Option<Seq<char>>, data: Seq<char>, res: Result<ProducerRecord, ProducerError>) -> bool {
    match topic {
        None => res matches Err(ProducerError::MissingTopic),
        Some(t) => res matches Ok(r) && r.topic@ == t && r.value@ == encode_utf8(data),
    }
}

/// Sends data to a topic.
pub trait ProducerRepository {
    /// The topic set last, if any.
    spec fn topic(&self) -> Option<Seq<char>>;

    /// The record that sending `data` sends.
    fn send_data_to_topic(&self, data: &str) -> (res: Result<ProducerRecord, ProducerError>)
        ensures
            record_spec(self.topic(), data@, res),
    ;

    /// Sends from now on to `topic`.
    fn set_topic(&mut self, topic: &str)
        ensures
            final(self).topic() == Some(topic@),
    ;
}

/// A producer's topic, once one is set.
#[derive(Debug)]
pub struct ProducerRepositoryImpl {
    topic: Option<String>,
}

impl ProducerRepositoryImpl {
    /// A producer with no topic yet.
    pub fn new() -> (res: Self)
        ensures
            res.topic() is None,
    {
        ProducerRepositoryImpl { topic: None }
    }
}

impl ProducerRepository for ProducerRepositoryImpl {
    closed spec fn topic(&self) -> Option<Seq<char>> {
        match self.topic {
            Some(t) => Some(t@),
            None => None,
        }
    }

    fn send_data_to_topic(&self, data: &str) -> (res: Result<ProducerRecord, ProducerError>) {
        match &self.topic {
            None => Err(ProducerError::MissingTopic),
            Some(t) => Ok(ProducerRecord { topic: t.clone(), value: vstd::slice::slice_to_vec(data.as_bytes()) }),
        }
    }

    fn set_topic(&mut self, topic: &str) {
        self.topic = Some(topic.to_owned());
    }
}

/// A send goes to the topic set last: after `set_topic(t)`, sending any
/// data makes a record to `t` of that data's UTF-8.
pub proof fn law_send_goes_to_last_topic<P: ProducerRepository>(p: P, t: Seq<char>, data: Seq<char>, res: Result<ProducerRecord, ProducerError>)
    requires
        p.topic() == Some(t),
        record_spec(p.topic(), data, res),
    ensures
        res matches Ok(r) && r.topic@ == t && r.value@ == encode_utf8(data),
{
}

/// The payload that announces a new user: the operation `create` with the
/// user.
pub fn create_user_payload(user: User) -> (res: QueueUser)
    ensures
        res.operation@ == "create"@,
        res.user == Some(user),
{
    QueueUser::new("create", user)
}

/// Announces new users.
pub trait UserProducerRepository {
    /// The topic users are announced on.
    spec fn user_topic(&self) -> Seq<char>;

    /// The payload that announces `user`: `create` with the user.
    fn create(&self, user: User) -> (res: QueueUser)
        ensures
            res.operation@ == "create"@,
            res.user == Some(user),
    ;

    /// The record that sends a serialised payload on the users topic.
    fn send(&self, payload: &str) -> (res: Result<ProducerRecord, ProducerError>)
        ensures
            record_spec(Some(self.user_topic()), payload@, res),
    ;
}

/// Announces users through a producer set to the users topic.
pub struct UserProducerRepositoryImpl {
    producer_repo: ProducerRepositoryImpl,
}

impl UserProducerRepositoryImpl {
    #[verifier::type_invariant]
    spec fn topic_is_set(&self) -> bool {
        self.producer_repo.topic() is Some
    }

    /// Sets the producer to the users topic.
    pub fn new(producer_repo: ProducerRepositoryImpl, user_topic: &str) -> (res: Self)
        ensures
            res.user_topic() == user_topic@,
    {
        let mut producer_repo = producer_repo;
        producer_repo.set_topic(user_topic);
        UserProducerRepositoryImpl { producer_repo }
    }
}

impl UserProducerRepository for UserProducerRepositoryImpl {
    closed spec fn user_topic(&self) -> Seq<char> {
        self.producer_repo.topic().unwrap()
    }

    fn create(&self, user: User) -> (res: QueueUser) {
        create_user_payload(user)
    }

    fn send(&self, payload: &str) -> (res: Result<ProducerRecord, ProducerError>) {
        proof {
            use_type_invariant(self);
        }
        self.producer_repo.send_data_to_topic(payload)
    }
}

} // verus!
