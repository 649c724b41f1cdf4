//! The script runtime: one embedded Lua context, the ordered registry of
//! callbacks that scripts registered, and the dispatch loop that drives
//! those callbacks over one record.
//!
//! Every call into the Lua runtime goes through a small trusted wrapper
//! whose contract states no more than mlua's own source shows. What a
//! callback returns is classified into a [`CallbackOutcome`] and then
//! interpreted by the verified dispatch logic of [`crate::dispatch`].

use vstd::prelude::*;

use std::cell::Cell;
use std::cell::RefCell;
use std::rc::Rc;

use crate::dispatch::CallbackOutcome;
use crate::dispatch::CallbackOutcomeView;
use crate::dispatch::apply_outcome;
use crate::dispatch::dispatch_view;
use crate::errors::MarshalError;
use crate::errors::ScriptError;
use crate::errors::ScriptErrorView;
use crate::marshal::ScriptAlbum;
use crate::marshal::ScriptPicture;
use crate::marshal::ScriptRecord;
use crate::marshal::marshal;
use crate::trackdata::TrackData;
use crate::trackdata::TrackDataView;

verus! {

/// mlua's error type, declared so that it can stand in signatures.
#[verifier::external_type_specification]
#[verifier::external_body]
pub struct ExLuaError(mlua::Error);

/// mlua's table handle, declared so that it can stand in signatures.
#[verifier::external_type_specification]
#[verifier::external_body]
pub struct ExLuaTable(mlua::Table);

/// One embedded Lua context together with the registry of callbacks that
/// scripts registered through the global `retag.register`, in registration
/// order. The registry is a shared list that the Lua-side registration
/// closure appends to, so the whole struct is held opaquely; its contents
/// are spoken of only through [`num_callbacks`] and the wrappers below.
#[verifier::external_body]
pub struct LuaEngine {
    lua: mlua::Lua,
    callbacks: Rc<RefCell<Vec<mlua::RegistryKey>>>,
    locked: Rc<Cell<bool>>,
}

/// How many callbacks stand registered with the engine.
pub uninterp spec fn num_callbacks(e: LuaEngine) -> nat;

/// A callback's raw return value, classified by kind only.
enum RawReturn {
    Nil,
    Bool(bool),
    Table(mlua::Table),
    Other,
}

/// Relies on mlua's Lua::new: a fresh Lua context with an empty callback
/// registry and registration open.
#[verifier::external_body]
fn engine_new_raw() -> (r: LuaEngine)
    ensures
        num_callbacks(r) == 0,
{
    LuaEngine {
        lua: mlua::Lua::new(),
        callbacks: Rc::new(RefCell::new(Vec::new())),
        locked: Rc::new(Cell::new(false)),
    }
}

/// Relies on mlua's Lua::create_function, Lua::create_table, Table::set and
/// Lua::globals: installs the script-visible global `retag` whose one entry
/// `register` appends the handed function to this engine's callback
/// registry. The registry can grow only under `load_script`, which takes
/// the engine exclusively: while a callback invocation is in flight the
/// closure raises instead of appending, and the table reads and writes
/// around invocations are raw, so they run no script code at all. The
/// callback count is therefore a function of the engine value for as long
/// as the engine is only shared.
#[verifier::external_body]
fn install_register_api(e: &LuaEngine) -> (r: Result<(), mlua::Error>) {
    let (cb, lk) = (e.callbacks.clone(), e.locked.clone());
    let register = e.lua.create_function(move |l: &mlua::Lua, f: mlua::Function| {
        if lk.get() {
            return Err(mlua::Error::RuntimeError("registration is closed during dispatch".to_string()));
        }
        cb.borrow_mut().push(l.create_registry_value(f)?);
        Ok(())
    })?;
    let api = e.lua.create_table()?;
    api.set("register", register)?;
    e.lua.globals().set("retag", api)?;
    Ok(())
}

/// How one script chunk's execution ended, as the wrapper classifies it.
enum ChunkOutcome {
    /// The chunk ran to completion.
    Done,
    /// The registration API refused its argument: the typed closure's
    /// argument conversion failed, so nothing was registered by that call.
    BadRegistration,
    /// A parse failure or an uncaught raise, with the runtime's message.
    Failed(String),
}

/// Relies on mlua's Lua::load and Chunk::exec: runs the given source text
/// once in the engine's shared global context. An uncaught failure that is
/// mlua's own argument-conversion error (BadArgument, raised by the typed
/// registration closure and handed back wrapped in CallbackError) is told
/// apart from every other failure; the registration closure is the only
/// host function scripts can call, so no other call produces it. The
/// closure only ever appends, so the callback count never shrinks.
#[verifier::external_body]
fn exec_source(e: &mut LuaEngine, source: &str) -> (r: ChunkOutcome)
    ensures
        num_callbacks(*final(e)) >= num_callbacks(*old(e)),
{
    match e.lua.load(source).exec() {
        Ok(()) => ChunkOutcome::Done,
        Err(err) => match &err {
            mlua::Error::CallbackError { cause, .. } => match &**cause {
                mlua::Error::BadArgument { .. } => ChunkOutcome::BadRegistration,
                _ => ChunkOutcome::Failed(format!("{}", err)),
            },
            _ => ChunkOutcome::Failed(format!("{}", err)),
        },
    }
}

/// Relies on Vec::len of the registry behind its cell: how many callbacks
/// stand registered.
#[verifier::external_body]
fn callback_count_raw(e: &LuaEngine) -> (n: usize)
    ensures
        n == num_callbacks(*e),
{
    e.callbacks.borrow().len()
}

/// Relies on mlua's Lua::create_table: a fresh empty table in this
/// engine's context.
#[verifier::external_body]
fn new_table(e: &LuaEngine) -> (r: Result<mlua::Table, mlua::Error>) {
    e.lua.create_table()
}

/// Relies on mlua's Table::raw_set: binds `key` to the given text in
/// `t`, writing the slot directly so no metamethod can run.
#[verifier::external_body]
fn table_set_str(t: &mlua::Table, key: &str, v: &str) -> (r: Result<(), mlua::Error>) {
    t.raw_set(key, v)
}

/// Relies on mlua's Table::raw_set: binds `key` to the given integer in
/// `t`, writing the slot directly so no metamethod can run.
#[verifier::external_body]
fn table_set_int(t: &mlua::Table, key: &str, v: i64) -> (r: Result<(), mlua::Error>) {
    t.raw_set(key, v)
}

/// Relies on mlua's Lua::create_string and Table::raw_set: binds `key` to
/// the given bytes, kept as a Lua byte string and never re-encoded as
/// text, writing the slot directly so no metamethod can run.
#[verifier::external_body]
fn table_set_bytes(e: &LuaEngine, t: &mlua::Table, key: &str, v: &Vec<u8>) -> (r: Result<
    (),
    mlua::Error,
>) {
    t.raw_set(key, e.lua.create_string(v.as_slice())?)
}

/// Relies on mlua's Table::raw_set: binds `key` to another table,
/// writing the slot directly so no metamethod can run.
#[verifier::external_body]
fn table_set_table(t: &mlua::Table, key: &str, v: &mlua::Table) -> (r: Result<(), mlua::Error>) {
    t.raw_set(key, v)
}

/// Relies on mlua's Table::raw_get with mlua's standard string
/// conversion: the value under `key` as text, `None` when the slot is
/// empty, an error when the value cannot be converted (numbers coerce to
/// text; a non-UTF-8 string does not). The slot is read directly, so no
/// metamethod can run during a dispatch run.
#[verifier::external_body]
fn table_get_str(t: &mlua::Table, key: &str) -> (r: Result<Option<String>, mlua::Error>) {
    t.raw_get(key)
}

/// Relies on mlua's Table::raw_get with mlua's standard integer
/// conversion: the value under `key` as an integer, `None` when the slot
/// is empty, an error when the value cannot be converted (numeric text
/// coerces; anything else does not). The slot is read directly, so no
/// metamethod can run during a dispatch run.
#[verifier::external_body]
fn table_get_int(t: &mlua::Table, key: &str) -> (r: Result<Option<i64>, mlua::Error>) {
    t.raw_get(key)
}

/// Relies on mlua's Table::raw_get and LuaString::as_bytes: the value
/// under `key` as its raw bytes, `None` when the slot is empty, an error
/// when the value cannot be converted to a Lua string (numbers coerce).
/// The slot is read directly, so no metamethod can run during a dispatch
/// run.
#[verifier::external_body]
fn table_get_bytes(t: &mlua::Table, key: &str) -> (r: Result<Option<Vec<u8>>, mlua::Error>) {
    let s: Option<mlua::LuaString> = t.raw_get(key)?;
    Ok(s.map(|x| x.as_bytes().to_vec()))
}

/// Relies on mlua's Table::raw_get: the value under `key` as a table
/// handle, `None` when the slot is empty, an error when it is not a
/// table. The slot is read directly, so no metamethod can run during a
/// dispatch run.
#[verifier::external_body]
fn table_get_table(t: &mlua::Table, key: &str) -> (r: Result<Option<mlua::Table>, mlua::Error>) {
    t.raw_get(key)
}

/// Relies on mlua's Lua::registry_value and Function::call: fetches the
/// callback at position `i` in registration order and calls it with the
/// given table as its one argument. Registration is closed for the length
/// of the call, so the registry cannot change underneath it. The raw
/// return value comes back classified by kind only; a raise inside the
/// callback comes back as the error.
#[verifier::external_body]
fn invoke_raw(e: &LuaEngine, i: usize, arg: &mlua::Table) -> (r: Result<RawReturn, mlua::Error>)
    requires
        i < num_callbacks(*e),
{
    let func: mlua::Function = {
        let keys = e.callbacks.borrow();
        e.lua.registry_value(&keys[i])?
    };
    e.locked.set(true);
    let out = func.call::<mlua::Value>(arg);
    e.locked.set(false);
    match out? {
        mlua::Value::Nil => Ok(RawReturn::Nil),
        mlua::Value::Boolean(b) => Ok(RawReturn::Bool(b)),
        mlua::Value::Table(t) => Ok(RawReturn::Table(t)),
        _ => Ok(RawReturn::Other),
    }
}

/// Relies on mlua's Display impl for Error: a readable message for an
/// error the runtime reported.
#[verifier::external_body]
fn lua_error_text(e: &mlua::Error) -> (r: String) {
    format!("{}", e)
}

impl LuaEngine {
    /// Builds a fresh engine: an empty callback registry and the
    /// script-visible registration API already installed.
    pub fn new() -> (r: Result<LuaEngine, ScriptError>)
        ensures
            match r {
                Ok(e) => num_callbacks(e) == 0,
                Err(e) => e@ is SyntaxOrRuntimeError,
            },
    {
        let e = engine_new_raw();
        match install_register_api(&e) {
            Ok(()) => Ok(e),
            Err(err) => Err(ScriptError::SyntaxOrRuntimeError(lua_error_text(&err))),
        }
    }

    /// Executes one script's source text in the shared global context, so
    /// that its registrations and global definitions take effect for every
    /// later script and dispatch run. Handing the registration API a value
    /// it cannot take as a function is the invalid-callback error (the
    /// check is eager, at registration time); any other parse failure or
    /// raise during top-level execution is the script's runtime error.
    /// Callbacks registered before a failure remain registered.
    pub fn load_script(&mut self, source: &str) -> (r: Result<(), ScriptError>)
        ensures
            num_callbacks(*final(self)) >= num_callbacks(*old(self)),
            match r {
                Ok(()) => true,
                Err(e) => (e@ is SyntaxOrRuntimeError) || (e@ is InvalidCallback),
            },
    {
        match exec_source(self, source) {
            ChunkOutcome::Done => Ok(()),
            ChunkOutcome::BadRegistration => Err(ScriptError::InvalidCallback),
            ChunkOutcome::Failed(msg) => Err(ScriptError::SyntaxOrRuntimeError(msg)),
        }
    }

    /// How many callbacks stand registered, in registration order.
    pub fn callback_count(&self) -> (n: usize)
        ensures
            n == num_callbacks(*self),
    {
        callback_count_raw(self)
    }

    /// Builds the Lua table for a cover: raw bytes under `data`, the mime
    /// tag under `mime`.
    fn cover_to_table(&self, p: &ScriptPicture) -> Result<mlua::Table, mlua::Error> {
        let t = new_table(self)?;
        table_set_bytes(self, &t, "data", &p.data)?;
        match &p.mime {
            Some(m) => table_set_str(&t, "mime", m.as_str())?,
            None => (),
        }
        Ok(t)
    }

    /// Builds the Lua table for the album: title, artist and the optional
    /// cover table.
    fn album_to_table(&self, a: &ScriptAlbum) -> Result<mlua::Table, mlua::Error> {
        let t = new_table(self)?;
        match &a.title {
            Some(s) => table_set_str(&t, "title", s.as_str())?,
            None => (),
        }
        match &a.artist {
            Some(s) => table_set_str(&t, "artist", s.as_str())?,
            None => (),
        }
        match &a.cover {
            Some(p) => {
                let ct = self.cover_to_table(p)?;
                table_set_table(&t, "cover", &ct)?;
            },
            None => (),
        }
        Ok(t)
    }

    /// Builds the Lua table for one record, field by field; absent fields
    /// leave their slot empty.
    fn record_to_table(&self, sr: &ScriptRecord) -> Result<mlua::Table, mlua::Error> {
        let t = new_table(self)?;
        match &sr.title {
            Some(s) => table_set_str(&t, "title", s.as_str())?,
            None => (),
        }
        match &sr.artist {
            Some(s) => table_set_str(&t, "artist", s.as_str())?,
            None => (),
        }
        match &sr.genre {
            Some(s) => table_set_str(&t, "genre", s.as_str())?,
            None => (),
        }
        match &sr.comment {
            Some(s) => table_set_str(&t, "comment", s.as_str())?,
            None => (),
        }
        match &sr.composer {
            Some(s) => table_set_str(&t, "composer", s.as_str())?,
            None => (),
        }
        match &sr.album_artist {
            Some(s) => table_set_str(&t, "album_artist", s.as_str())?,
            None => (),
        }
        match &sr.year {
            Some(v) => table_set_int(&t, "year", *v)?,
            None => (),
        }
        match &sr.disc_number {
            Some(v) => table_set_int(&t, "disc_number", *v)?,
            None => (),
        }
        match &sr.track_number {
            Some(v) => table_set_int(&t, "track_number", *v)?,
            None => (),
        }
        match &sr.duration {
            Some(v) => table_set_int(&t, "duration", *v)?,
            None => (),
        }
        match &sr.album {
            Some(a) => {
                let at = self.album_to_table(a)?;
                table_set_table(&t, "album", &at)?;
            },
            None => (),
        }
        Ok(t)
    }

    /// Reads a cover table back: bytes under `data` (empty when absent),
    /// the mime tag under `mime` kept as the text found there.
    fn table_to_cover(&self, t: &mlua::Table) -> Result<ScriptPicture, mlua::Error> {
        let data = match table_get_bytes(t, "data")? {
            Some(b) => b,
            None => Vec::new(),
        };
        let mime = table_get_str(t, "mime")?;
        Ok(ScriptPicture { data, mime })
    }

    /// Reads an album table back, each field absent when its slot is.
    fn table_to_album(&self, t: &mlua::Table) -> Result<ScriptAlbum, mlua::Error> {
        let cover = match table_get_table(t, "cover")? {
            Some(ct) => Some(self.table_to_cover(&ct)?),
            None => None,
        };
        Ok(ScriptAlbum { title: table_get_str(t, "title")?, artist: table_get_str(t, "artist")?, cover })
    }

    /// Reads a record table back, field by field, each field absent when
    /// its slot is.
    fn table_to_record(&self, t: &mlua::Table) -> Result<ScriptRecord, mlua::Error> {
        let album = match table_get_table(t, "album")? {
            Some(at) => Some(self.table_to_album(&at)?),
            None => None,
        };
        Ok(
            ScriptRecord {
                title: table_get_str(t, "title")?,
                artist: table_get_str(t, "artist")?,
                album,
                year: table_get_int(t, "year")?,
                genre: table_get_str(t, "genre")?,
                comment: table_get_str(t, "comment")?,
                composer: table_get_str(t, "composer")?,
                album_artist: table_get_str(t, "album_artist")?,
                disc_number: table_get_int(t, "disc_number")?,
                track_number: table_get_int(t, "track_number")?,
                duration: table_get_int(t, "duration")?,
            },
        )
    }

    /// Marshals the record out once per callback, invokes every registered
    /// callback in registration order, and interprets each return: nothing
    /// (or an explicit false) keeps the current candidate, a table becomes
    /// the new candidate through the checked inbound marshal, anything
    /// else is a marshal error, and a raise aborts the run naming the
    /// callback's position. With no callbacks registered the result is
    /// always "no change". Each callback sees the current candidate — the
    /// output of the callbacks before it — not the original record.
    ///
    /// The result is always the dispatch fold of some sequence of callback
    /// outcomes over the input record, one outcome per callback that
    /// actually ran (the one exception: a table the runtime could not even
    /// build, reported as a runtime error). Which outcomes occur is the
    /// scripts' business; how they combine is fixed by
    /// [`crate::dispatch::dispatch_view`].
    pub fn run_callbacks(&self, data: &TrackData) -> (r: Result<Option<TrackData>, ScriptError>)
        ensures
            num_callbacks(*self) == 0 ==> r == Ok::<Option<TrackData>, ScriptError>(
                None::<TrackData>,
            ),
            match r {
                Ok(opt) => exists|obs: Seq<CallbackOutcomeView>|
                    obs.len() == num_callbacks(*self) && #[trigger] dispatch_view(data@, obs)
                        == Ok::<Option<TrackDataView>, ScriptErrorView>(
                        match opt {
                            Some(t) => Some(t@),
                            None => None,
                        },
                    ),
                Err(e) => (e@ is SyntaxOrRuntimeError) || (exists|obs: Seq<CallbackOutcomeView>|
                    obs.len() <= num_callbacks(*self) && #[trigger] dispatch_view(data@, obs)
                        == Err::<Option<TrackDataView>, ScriptErrorView>(e@)),
            },
            match r {
                Ok(_) => true,
                Err(e) => match e@ {
                    ScriptErrorView::CallbackFailed { index, message } => 0 <= index
                        < num_callbacks(*self),
                    _ => true,
                },
            },
    {
        let n = callback_count_raw(self);
        let mut current = data.clone();
        let mut changed = false;
        let mut i: usize = 0;
        let ghost mut obs = Seq::<CallbackOutcomeView>::empty();
        while i < n
            invariant
                n == num_callbacks(*self),
                i <= n,
                obs.len() == i as int,
                dispatch_view(data@, obs) == Ok::<Option<TrackDataView>, ScriptErrorView>(
                    if changed {
                        Some(current@)
                    } else {
                        None
                    },
                ),
                !changed ==> current@ == data@,
            decreases n - i,
        {
            let sr = marshal(&current);
            let table = match self.record_to_table(&sr) {
                Ok(t) => t,
                Err(e) => {
                    return Err(ScriptError::SyntaxOrRuntimeError(lua_error_text(&e)));
                },
            };
            let raw = match invoke_raw(self, i, &table) {
                Ok(rr) => rr,
                Err(e) => {
                    let msg = lua_error_text(&e);
                    proof {
                        lemma_run_step(data@, obs, current@, changed, CallbackOutcomeView::Raised(msg@));
                    }
                    return Err(ScriptError::CallbackFailed { index: i, message: msg });
                },
            };
            let outcome: CallbackOutcome = match raw {
                RawReturn::Nil => CallbackOutcome::NoOutput,
                RawReturn::Bool(b) => {
                    if b {
                        CallbackOutcome::Invalid(MarshalError::NotARecord)
                    } else {
                        CallbackOutcome::NoOutput
                    }
                },
                RawReturn::Table(rt) => match self.table_to_record(&rt) {
                    Ok(sr2) => CallbackOutcome::Replacement(sr2),
                    Err(_) => CallbackOutcome::Invalid(MarshalError::BadField),
                },
                RawReturn::Other => CallbackOutcome::Invalid(MarshalError::NotARecord),
            };
            let ghost o_shape = outcome@;
            let ghost cur_shape = current@;
            match apply_outcome(current, i, outcome) {
                Ok((t, rep)) => {
                    proof {
                        lemma_run_step(data@, obs, cur_shape, changed, o_shape);
                        obs = obs.push(o_shape);
                    }
                    current = t;
                    changed = changed || rep;
                },
                Err(e) => {
                    proof {
                        lemma_run_step(data@, obs, cur_shape, changed, o_shape);
                    }
                    return Err(e);
                },
            }
            i = i + 1;
        }
        if changed {
            Ok(Some(current))
        } else {
            Ok(None)
        }
    }
}

/// One dispatch step at the end of a run so far: if folding `obs` over
/// `data` has reached the state `(cur, changed)`, then folding one more
/// outcome lands exactly where [`crate::dispatch::outcome_step`] says.
proof fn lemma_run_step(
    data: TrackDataView,
    obs: Seq<CallbackOutcomeView>,
    cur: TrackDataView,
    changed: bool,
    o: CallbackOutcomeView,
)
    requires
        dispatch_view(data, obs) == Ok::<Option<TrackDataView>, ScriptErrorView>(
            if changed {
                Some(cur)
            } else {
                None
            },
        ),
        !changed ==> cur == data,
    ensures
        dispatch_view(data, obs.push(o)) == (match crate::dispatch::outcome_step(
            cur,
            obs.len() as int,
            o,
        ) {
            Ok((t, rep)) => Ok::<Option<TrackDataView>, ScriptErrorView>(
                if changed || rep {
                    Some(t)
                } else {
                    None
                },
            ),
            Err(e) => Err(e),
        }),
{
    let tail = seq![o];
    assert(obs.push(o) =~= obs + tail);
    crate::dispatch::lemma_dispatch_append(data, false, 0, obs, tail);
    assert(tail.drop_first() =~= Seq::<CallbackOutcomeView>::empty());
    let from = if changed {
        cur
    } else {
        data
    };
    assert(dispatch_view(data, obs + tail) == crate::dispatch::dispatch_from(
        from,
        changed,
        obs.len() as int,
        tail,
    ));
    assert(from == cur);
    assert(tail[0] == o);
    match crate::dispatch::outcome_step(cur, obs.len() as int, o) {
        Ok((t, rep)) => {
            assert(crate::dispatch::dispatch_from(cur, changed, obs.len() as int, tail)
                == crate::dispatch::dispatch_from(
                t,
                changed || rep,
                obs.len() as int + 1,
                tail.drop_first(),
            ));
            assert(crate::dispatch::dispatch_from(
                t,
                changed || rep,
                obs.len() as int + 1,
                tail.drop_first(),
            ) == Ok::<Option<TrackDataView>, ScriptErrorView>(
                if changed || rep {
                    Some(t)
                } else {
                    None
                },
            ));
        },
        Err(e) => {
            assert(crate::dispatch::dispatch_from(cur, changed, obs.len() as int, tail) == Err::<
                Option<TrackDataView>,
                ScriptErrorView,
            >(e));
        },
    }
}

} // verus!
