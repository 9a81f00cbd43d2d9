use vstd::prelude::*;
use vstd::string::StrSliceExecFns;
use vstd::string::StringExecFns;
use crate::identifier::{hyphenated, is_identifier_char, is_random_uuid, lemma_identifier_text_chars, Identifier};
use crate::json::{escape_free, single_entry_object, single_entry_object_text};

verus! {

/// The routes an invocation can take.
#[derive(Clone, Copy, Debug, PartialEq, Eq, Structural)]
pub enum Route {
    /// Answers that the function is healthy; writes nothing.
    Health,
    /// Creates an identifier and writes it to the object store and the table.
    Default,
}

/// The route for the event's optional resource path: the health path
/// selects `Health`; any other path, or none, selects `Default`.
pub open spec fn route_for(resource: Option<Seq<char>>) -> Route {
    match resource {
        Some(p) => if p == "/health"@ { Route::Health } else { Route::Default },
        None => Route::Default,
    }
}

pub fn route_of(resource: &Option<String>) -> (r: Route)
    ensures
        r == route_for(match resource { Some(s) => Some(s@), None => None }),
{
    match resource {
        Some(s) => {
            let health = String::from_str("/health");
            if s.eq(&health) {
                Route::Health
            } else {
                Route::Default
            }
        },
        None => Route::Default,
    }
}

/// The answer handed back to the caller: a status code and a JSON body.
#[derive(Debug)]
pub struct Response {
    pub status_code: i32,
    pub body: String,
}

/// `r` has the given status code and body text.
pub open spec fn responds(r: Response, status: i32, body: Seq<char>) -> bool {
    r.status_code == status && r.body@ == body
}

/// The ways an invocation on the write path can fail.
#[derive(Clone, Copy, Debug, PartialEq, Eq, Structural)]
pub enum Failure {
    /// The bucket name or the table name is missing or empty.
    ConfigMissing,
    /// The object-store write was refused or could not be made.
    ObjectStoreWriteFailed,
    /// The table write was refused or could not be made.
    TableWriteFailed,
}

pub open spec fn failure_message(f: Failure) -> Seq<char> {
    match f {
        Failure::ConfigMissing => "Missing environment variables"@,
        Failure::ObjectStoreWriteFailed => "Failed to put object in S3"@,
        Failure::TableWriteFailed => "Failed to put item in DynamoDB"@,
    }
}

/// `{"error":"<message>"}`
pub open spec fn error_body(f: Failure) -> Seq<char> {
    single_entry_object("error"@, failure_message(f))
}

/// `{"id":"<identifier>"}`
pub open spec fn success_body(id: Seq<char>) -> Seq<char> {
    single_entry_object("id"@, id)
}

/// `{"status":"healthy"}`
pub open spec fn healthy_body() -> Seq<char> {
    single_entry_object("status"@, "healthy"@)
}

impl Failure {
    pub fn message(&self) -> (r: String)
        ensures
            r@ == failure_message(*self),
    {
        match self {
            Failure::ConfigMissing => String::from_str("Missing environment variables"),
            Failure::ObjectStoreWriteFailed => String::from_str("Failed to put object in S3"),
            Failure::TableWriteFailed => String::from_str("Failed to put item in DynamoDB"),
        }
    }

    /// The failure as a response: status 500 with the message in the body.
    pub fn response(&self) -> (r: Response)
        ensures
            responds(r, 500, error_body(*self)),
    {
        let message = self.message();
        proof {
            reveal_strlit("error");
            reveal_strlit("Missing environment variables");
            reveal_strlit("Failed to put object in S3");
            reveal_strlit("Failed to put item in DynamoDB");
        }
        let key = String::from_str("error");
        Response { status_code: 500, body: single_entry_object_text(key.as_str(), message.as_str()) }
    }
}

/// The fixed answer of the health route.
pub fn health_check() -> (r: Response)
    ensures
        responds(r, 200, healthy_body()),
{
    proof {
        reveal_strlit("status");
        reveal_strlit("healthy");
    }
    let key = String::from_str("status");
    let value = String::from_str("healthy");
    Response { status_code: 200, body: single_entry_object_text(key.as_str(), value.as_str()) }
}


/// The key under which an identifier's object is stored.
pub open spec fn object_key(id: Seq<char>) -> Seq<char> {
    id + ".txt"@
}

/// One byte per character: the UTF-8 form of ASCII text.
pub open spec fn ascii_bytes(s: Seq<char>) -> Seq<u8> {
    Seq::new(s.len(), |i: int| s[i] as u8)
}

/// A write of one object into the object store.
#[derive(Debug)]
pub struct ObjectWrite {
    pub bucket: String,
    pub key: String,
    pub body: Vec<u8>,
}

/// A write of the record `{id: <string>}` into the table.
#[derive(Debug)]
pub struct TableWrite {
    pub table: String,
    pub id: String,
}

/// `w` stores the text `id` under the key `<id>.txt` in `bucket`.
pub open spec fn stores_object(w: ObjectWrite, bucket: Seq<char>, id: Seq<char>) -> bool {
    w.bucket@ == bucket && w.key@ == object_key(id) && w.body@ == ascii_bytes(id)
}

/// `w` writes the record `{id: id}` into `table`.
pub open spec fn stores_record(w: TableWrite, table: Seq<char>, id: Seq<char>) -> bool {
    w.table@ == table && w.id@ == id
}

/// An invocation waiting for the outcome of its object-store write.
pub struct PendingObject {
    id: Identifier,
    table: String,
    write: ObjectWrite,
}

/// An invocation waiting for the outcome of its table write.
pub struct PendingItem {
    id: Identifier,
    write: TableWrite,
}

impl PendingObject {
    /// The bytes of the invocation's identifier.
    pub closed spec fn identifier(&self) -> Seq<u8> {
        self.id.bytes@
    }

    /// The table that the record goes to once the object is stored.
    pub closed spec fn table_name(&self) -> Seq<char> {
        self.table@
    }

    /// The write that the invocation asks for.
    pub closed spec fn object_write(&self) -> ObjectWrite {
        self.write
    }

    pub fn request(&self) -> (r: &ObjectWrite)
        ensures
            *r == self.object_write(),
    {
        &self.write
    }

    /// Takes the outcome of the object-store write: on success the table
    /// write comes next, on failure the invocation ends with the object-store
    /// failure and no table write.
    pub fn object_written(self, ok: bool) -> (r: AfterObject)
        ensures
            after_object(self, ok, r),
    {
        if ok {
            let text = self.id.text();
            AfterObject::WriteItem(PendingItem {
                id: self.id,
                write: TableWrite { table: self.table, id: text },
            })
        } else {
            AfterObject::Respond(Failure::ObjectStoreWriteFailed.response())
        }
    }
}

impl PendingItem {
    /// The bytes of the invocation's identifier.
    pub closed spec fn identifier(&self) -> Seq<u8> {
        self.id.bytes@
    }

    /// The write that the invocation asks for.
    pub closed spec fn table_write(&self) -> TableWrite {
        self.write
    }

    pub fn request(&self) -> (r: &TableWrite)
        ensures
            *r == self.table_write(),
    {
        &self.write
    }

    /// Takes the outcome of the table write and gives the final answer. A
    /// failure leaves the stored object in place: nothing is undone.
    pub fn item_written(self, ok: bool) -> (r: Response)
        ensures
            finished(self, ok, r),
    {
        if ok {
            proof {
                reveal_strlit("id");
                lemma_identifier_escape_free(self.id.bytes@);
            }
            let key = String::from_str("id");
            let text = self.id.text();
            Response { status_code: 200, body: single_entry_object_text(key.as_str(), text.as_str()) }
        } else {
            Failure::TableWriteFailed.response()
        }
    }
}

/// What an invocation does first.
pub enum Start {
    /// Answer at once, writing nothing.
    Respond(Response),
    /// Write the object, then report the outcome.
    WriteObject(PendingObject),
}

/// What an invocation does once its object-store write has an outcome.
pub enum AfterObject {
    /// Answer, writing nothing more.
    Respond(Response),
    /// Write the record, then report the outcome.
    WriteItem(PendingItem),
}

/// `r` is how an invocation on `route`, with the given bucket and table
/// names and the identifier bytes `id`, begins.
pub open spec fn starts(r: Start, route: Route, bucket: Seq<char>, table: Seq<char>, id: Seq<u8>) -> bool {
    match route {
        Route::Health => r is Respond && responds(r->Respond_0, 200, healthy_body()),
        Route::Default => if bucket.len() == 0 || table.len() == 0 {
            r is Respond && responds(r->Respond_0, 500, error_body(Failure::ConfigMissing))
        } else {
            r is WriteObject && r->WriteObject_0.identifier() == id
                && r->WriteObject_0.table_name() == table
                && stores_object(r->WriteObject_0.object_write(), bucket, hyphenated(id))
        },
    }
}

/// `r` follows the outcome `ok` of the object-store write of `p`.
pub open spec fn after_object(p: PendingObject, ok: bool, r: AfterObject) -> bool {
    if ok {
        r is WriteItem && r->WriteItem_0.identifier() == p.identifier()
            && stores_record(r->WriteItem_0.table_write(), p.table_name(), hyphenated(p.identifier()))
    } else {
        r is Respond && responds(r->Respond_0, 500, error_body(Failure::ObjectStoreWriteFailed))
    }
}

/// `r` is the answer after the outcome `ok` of the table write of `q`.
pub open spec fn finished(q: PendingItem, ok: bool, r: Response) -> bool {
    if ok {
        responds(r, 200, success_body(hyphenated(q.identifier())))
    } else {
        responds(r, 500, error_body(Failure::TableWriteFailed))
    }
}

/// The identifier's bytes of the invocation begun by `r`, if it writes.
pub open spec fn started_identifier(r: Start) -> Seq<u8> {
    match r {
        Start::WriteObject(p) => p.identifier(),
        Start::Respond(_) => Seq::empty(),
    }
}

/// The text of an identifier needs no escape in JSON and is ASCII.
pub proof fn lemma_identifier_escape_free(b: Seq<u8>)
    requires
        b.len() == 16,
    ensures
        escape_free(hyphenated(b)),
        vstd::utf8::is_ascii_chars(hyphenated(b)),
{
    lemma_identifier_text_chars(b);
}

/// Begins an invocation on `route` with the identifier `id`. The health
/// route answers at once, whatever the configuration; the default route
/// answers with the configuration failure when a name is empty, and else
/// asks to store the identifier's text under `<text>.txt` in `bucket`.
pub fn handle_with_id(route: Route, bucket: &str, table: &str, id: Identifier) -> (r: Start)
    ensures
        starts(r, route, bucket@, table@, id.bytes@),
{
    match route {
        Route::Health => Start::Respond(health_check()),
        Route::Default => {
            if bucket.is_empty() || table.is_empty() {
                Start::Respond(Failure::ConfigMissing.response())
            } else {
                proof {
                    lemma_identifier_escape_free(id.bytes@);
                    reveal_strlit(".txt");
                }
                let text = id.text();
                let text_str = text.as_str();
                let body = text_str.as_bytes_vec();
                proof {
                    vstd::string::is_ascii_spec_bytes(text_str);
                }
                let mut key = text.clone();
                key.append(".txt");
                assert(body@ =~= ascii_bytes(hyphenated(id.bytes@)));
                let write = ObjectWrite { bucket: bucket.to_owned(), key, body };
                Start::WriteObject(PendingObject { id, table: table.to_owned(), write })
            }
        },
    }
}

/// Begins an invocation on `route`. A fresh random identifier is drawn only
/// where the invocation writes; it is then the one that the writes carry.
pub fn handle(route: Route, bucket: &str, table: &str) -> (r: Start)
    ensures
        starts(r, route, bucket@, table@, started_identifier(r)),
        r is WriteObject ==> is_random_uuid(started_identifier(r)),
{
    if route == Route::Default && !bucket.is_empty() && !table.is_empty() {
        handle_with_id(route, bucket, table, Identifier::new_random())
    } else {
        handle_with_id(route, bucket, table, Identifier::from_bytes([0u8; 16]))
    }
}

/// When the configuration is present and both writes succeed, the answer is
/// a success whose identifier is the one the object was stored under (key
/// `<id>.txt`, body the identifier's text) and the one written to the table.
pub proof fn lemma_success_round_trip(
    bucket: Seq<char>,
    table: Seq<char>,
    id: Seq<u8>,
    s: Start,
    a: AfterObject,
    resp: Response,
)
    requires
        bucket.len() > 0,
        table.len() > 0,
        starts(s, Route::Default, bucket, table, id),
        after_object(s->WriteObject_0, true, a),
        finished(a->WriteItem_0, true, resp),
    ensures
        s is WriteObject,
        a is WriteItem,
        resp.status_code == 200,
        resp.body@ == success_body(hyphenated(id)),
        s->WriteObject_0.object_write().bucket@ == bucket,
        s->WriteObject_0.object_write().key@ == object_key(hyphenated(id)),
        s->WriteObject_0.object_write().body@ == ascii_bytes(hyphenated(id)),
        a->WriteItem_0.table_write().table@ == table,
        a->WriteItem_0.table_write().id@ == hyphenated(id),
{
}

/// Without a bucket name or a table name the default route writes nothing
/// and answers with the configuration failure.
pub proof fn lemma_missing_configuration(bucket: Seq<char>, table: Seq<char>, id: Seq<u8>, s: Start)
    requires
        bucket.len() == 0 || table.len() == 0,
        starts(s, Route::Default, bucket, table, id),
    ensures
        !(s is WriteObject),
        responds(s->Respond_0, 500, error_body(Failure::ConfigMissing)),
{
}

/// After a failed object-store write the invocation ends with the
/// object-store failure: no table write is asked for.
pub proof fn lemma_object_failure_ends(p: PendingObject, a: AfterObject)
    requires
        after_object(p, false, a),
    ensures
        !(a is WriteItem),
        responds(a->Respond_0, 500, error_body(Failure::ObjectStoreWriteFailed)),
{
}

/// When the object is stored and the table write fails, the answer is the
/// table failure, and the object write stands as it was asked for: no
/// further write or removal follows the answer.
pub proof fn lemma_table_failure_keeps_object(
    bucket: Seq<char>,
    table: Seq<char>,
    id: Seq<u8>,
    s: Start,
    a: AfterObject,
    resp: Response,
)
    requires
        bucket.len() > 0,
        table.len() > 0,
        starts(s, Route::Default, bucket, table, id),
        after_object(s->WriteObject_0, true, a),
        finished(a->WriteItem_0, false, resp),
    ensures
        stores_object(s->WriteObject_0.object_write(), bucket, hyphenated(id)),
        stores_record(a->WriteItem_0.table_write(), table, hyphenated(id)),
        responds(resp, 500, error_body(Failure::TableWriteFailed)),
{
}

/// The health route writes nothing and gives the fixed healthy answer,
/// whatever the configuration.
pub proof fn lemma_health_writes_nothing(bucket: Seq<char>, table: Seq<char>, id: Seq<u8>, s: Start)
    requires
        starts(s, Route::Health, bucket, table, id),
    ensures
        !(s is WriteObject),
        responds(s->Respond_0, 200, healthy_body()),
{
}

/// Every identifier's text is a usable object key stem and record value:
/// 36 ASCII characters that need no escape, giving a 40-character key.
pub proof fn lemma_identifier_usable(id: Seq<u8>)
    requires
        id.len() == 16,
    ensures
        hyphenated(id).len() == 36,
        escape_free(hyphenated(id)),
        vstd::utf8::is_ascii_chars(hyphenated(id)),
        object_key(hyphenated(id)).len() == 40,
        ascii_bytes(hyphenated(id)).len() == 36,
{
    lemma_identifier_escape_free(id);
    reveal_strlit(".txt");
}

} // verus!
