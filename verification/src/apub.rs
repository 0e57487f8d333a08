//! ActivityPub activities and objects, as the library reads and writes them.
use crate::text::{to_owned_string, views};
use vstd::prelude::*;

verus! {

/// An object that carries its ActivityPub id.
pub trait HasId {
    spec fn spec_id(&self) -> Seq<char>;

    fn get_id(&self) -> (r: &str)
        ensures
            r@ == self.spec_id(),
    ;
}

/// `Accept`: a follow request was accepted.
#[derive(Debug)]
pub struct AcceptActivity {
    pub id: String,
    pub actor: String,
    pub object: IdOrObject<FollowActivity>,
}

/// `Follow`: the actor asks to follow the object.
#[derive(Debug)]
pub struct FollowActivity {
    pub id: String,
    pub actor: String,
    pub object: IdOrObject<Actor>,
}

/// A reference to an object: either its id or the object itself.
#[derive(Debug)]
pub enum IdOrObject<T> {
    Id(String),
    Object(T),
}

/// An actor.
#[derive(Debug, Clone)]
pub enum Actor {
    Person(Person),
}

/// A person actor.
#[derive(Debug, Clone)]
pub struct Person {
    pub id: String,
    pub name: String,
    pub inbox: String,
    pub outbox: String,
    pub shared_inbox: Option<String>,
    pub followers: Option<String>,
    pub following: Option<String>,
    pub liked: Option<String>,
    pub preferred_username: String,
    pub public_key: PublicKeyEnum,
    pub summary: Option<String>,
}

/// A public key object.
#[derive(Debug, Clone)]
pub enum PublicKeyEnum {
    Key(PublicKey),
}

/// An actor's public key: its id, its owner and the key in PEM form.
#[derive(Debug, Clone)]
pub struct PublicKey {
    pub id: String,
    pub owner: String,
    pub public_key_pem: String,
}

/// Objects that a `Create` can carry.
#[derive(Debug)]
pub enum CreatableObject {
    Note(Note),
}

/// A note: a post. `published` is in milliseconds since the Unix epoch.
#[derive(Debug)]
pub struct Note {
    pub id: String,
    pub attributed_to: String,
    pub content: String,
    pub to: Vec<String>,
    pub cc: Vec<String>,
    pub bto: Option<Vec<String>>,
    pub bcc: Option<Vec<String>>,
    pub published: i64,
    pub in_reply_to: Option<Box<IdOrObject<CreatableObject>>>,
    pub tags: Option<Vec<TagEnum>>,
}

/// A tag on a note.
#[derive(Debug, Clone)]
pub enum TagEnum {
    Mention(Mention),
    Hashtag(Hashtag),
}

/// A mention of an actor.
#[derive(Debug, Clone)]
pub struct Mention {
    pub href: String,
    pub name: String,
}

/// A hashtag.
#[derive(Debug, Clone)]
pub struct Hashtag {
    pub name: String,
}

/// `Create`: the actor created the object.
#[derive(Debug)]
pub struct CreateActivity {
    pub id: String,
    pub actor: String,
    pub object: IdOrObject<CreatableObject>,
    pub to: Vec<String>,
    pub cc: Vec<String>,
    pub bto: Option<Vec<String>>,
    pub bcc: Option<Vec<String>>,
}

/// `Announce`: the actor reposted the object. `published` is in milliseconds
/// since the Unix epoch.
#[derive(Debug)]
pub struct AnnounceActivity {
    pub id: String,
    pub actor: String,
    pub object: IdOrObject<CreatableObject>,
    pub published: i64,
    pub to: Vec<String>,
    pub cc: Vec<String>,
    pub bto: Option<Vec<String>>,
    pub bcc: Option<Vec<String>>,
}

/// The activities that an inbox accepts.
#[derive(Debug)]
pub enum Activity {
    Accept(AcceptActivity),
    Follow(FollowActivity),
    Create(CreateActivity),
    Announce(AnnounceActivity),
}

impl HasId for AcceptActivity {
    open spec fn spec_id(&self) -> Seq<char> {
        self.id@
    }

    fn get_id(&self) -> (r: &str) {
        self.id.as_str()
    }
}

impl HasId for FollowActivity {
    open spec fn spec_id(&self) -> Seq<char> {
        self.id@
    }

    fn get_id(&self) -> (r: &str) {
        self.id.as_str()
    }
}

impl HasId for CreateActivity {
    open spec fn spec_id(&self) -> Seq<char> {
        self.id@
    }

    fn get_id(&self) -> (r: &str) {
        self.id.as_str()
    }
}

impl HasId for AnnounceActivity {
    open spec fn spec_id(&self) -> Seq<char> {
        self.id@
    }

    fn get_id(&self) -> (r: &str) {
        self.id.as_str()
    }
}

impl HasId for Person {
    open spec fn spec_id(&self) -> Seq<char> {
        self.id@
    }

    fn get_id(&self) -> (r: &str) {
        self.id.as_str()
    }
}

impl HasId for PublicKey {
    open spec fn spec_id(&self) -> Seq<char> {
        self.id@
    }

    fn get_id(&self) -> (r: &str) {
        self.id.as_str()
    }
}

impl HasId for Note {
    open spec fn spec_id(&self) -> Seq<char> {
        self.id@
    }

    fn get_id(&self) -> (r: &str) {
        self.id.as_str()
    }
}

impl HasId for Activity {
    open spec fn spec_id(&self) -> Seq<char> {
        match self {
            Activity::Accept(a) => a.spec_id(),
            Activity::Follow(a) => a.spec_id(),
            Activity::Create(a) => a.spec_id(),
            Activity::Announce(a) => a.spec_id(),
        }
    }

    fn get_id(&self) -> (r: &str) {
        match self {
            Activity::Accept(a) => a.get_id(),
            Activity::Follow(a) => a.get_id(),
            Activity::Create(a) => a.get_id(),
            Activity::Announce(a) => a.get_id(),
        }
    }
}

impl<T: HasId> HasId for IdOrObject<T> {
    open spec fn spec_id(&self) -> Seq<char> {
        match self {
            IdOrObject::Id(id) => id@,
            IdOrObject::Object(obj) => obj.spec_id(),
        }
    }

    fn get_id(&self) -> (r: &str) {
        match self {
            IdOrObject::Id(id) => id.as_str(),
            IdOrObject::Object(obj) => obj.get_id(),
        }
    }
}

impl HasId for Actor {
    open spec fn spec_id(&self) -> Seq<char> {
        match self {
            Actor::Person(p) => p.spec_id(),
        }
    }

    fn get_id(&self) -> (r: &str) {
        match self {
            Actor::Person(p) => p.get_id(),
        }
    }
}

impl HasId for PublicKeyEnum {
    open spec fn spec_id(&self) -> Seq<char> {
        match self {
            PublicKeyEnum::Key(k) => k.spec_id(),
        }
    }

    fn get_id(&self) -> (r: &str) {
        match self {
            PublicKeyEnum::Key(k) => k.get_id(),
        }
    }
}

impl HasId for CreatableObject {
    open spec fn spec_id(&self) -> Seq<char> {
        match self {
            CreatableObject::Note(n) => n.spec_id(),
        }
    }

    fn get_id(&self) -> (r: &str) {
        match self {
            CreatableObject::Note(n) => n.get_id(),
        }
    }
}

impl Actor {
    pub fn from(person: Person) -> (r: Self)
        ensures
            r == Actor::Person(person),
    {
        Actor::Person(person)
    }
}

impl PublicKeyEnum {
    pub fn from(key: PublicKey) -> (r: Self)
        ensures
            r == PublicKeyEnum::Key(key),
    {
        PublicKeyEnum::Key(key)
    }
}

/// An object together with the JSON-LD `@context` it is served with.
#[derive(Debug, Clone)]
pub struct WithContext<T> {
    pub context: Vec<String>,
    pub inner: T,
}

/// The contexts every served object declares: ActivityStreams and the
/// security vocabulary.
pub open spec fn apub_contexts() -> Seq<Seq<char>> {
    seq!["https://www.w3.org/ns/activitystreams"@, "https://w3id.org/security/v1"@]
}

/// Attaches the ActivityStreams and security contexts to an object.
pub fn with_context<T>(inner: T) -> (r: WithContext<T>)
    ensures
        views(r.context@) == apub_contexts(),
        r.inner == inner,
{
    let mut context: Vec<String> = Vec::new();
    context.push(to_owned_string("https://www.w3.org/ns/activitystreams"));
    context.push(to_owned_string("https://w3id.org/security/v1"));
    assert(views(context@) =~= apub_contexts());
    WithContext { context, inner }
}

/// Objects that can be served with the contexts attached.
pub trait ContextAttachable: Sized {
    fn with_context(self) -> (r: WithContext<Self>)
        ensures
            views(r.context@) == apub_contexts(),
            r.inner == self,
    ;
}

impl<T> ContextAttachable for T {
    fn with_context(self) -> (r: WithContext<Self>) {
        with_context(self)
    }
}

} // verus!
