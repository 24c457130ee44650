//! Persistence: battery-backed save data, kept by the host under the title
//! of the cartridge that is running.

use vstd::prelude::*;

verus! {

/// `std::io::Error`, the error that the engine's save interface allows a
/// load or a save to fail with. It is declared so that `load` and `save` can
/// name it in their results. Nothing is stated of its values: the host's
/// store reports no failure to this layer, and the adapter never makes one.
#[verifier::external_type_specification]
#[verifier::external_body]
pub struct ExIoError(std::io::Error);

/// The host's persistence store. It keeps one save for each cartridge title.
pub trait PersistenceStore {
    /// Tells the store which cartridge is running: later loads and saves are
    /// for this title.
    fn set_title(&self, title: String);

    /// Returns what was last saved for the current title, or nothing if
    /// there is no save for it yet.
    fn load(&self) -> Vec<u8>;

    /// Keeps `ram` as the save of the current title.
    fn save(&self, ram: Vec<u8>);
}

/// The persistence adapter: it passes the engine's title, loads and saves on
/// to the host's store, adding and changing nothing.
pub struct WebGameSave<S: PersistenceStore> {
    game_save: S,
}

impl<S: PersistenceStore> WebGameSave<S> {
    /// The adapter around `game_save`.
    pub closed spec fn spec_new(game_save: S) -> Self {
        Self { game_save }
    }

    /// The host store that this adapter forwards to.
    pub closed spec fn store(&self) -> S {
        self.game_save
    }

    /// Wraps the host's store.
    #[verifier::when_used_as_spec(spec_new)]
    pub fn new(game_save: S) -> (adapter: Self)
        ensures
            adapter == Self::new(game_save),
            adapter.store() == game_save,
    {
        Self { game_save }
    }

    /// Tells the store which cartridge is running: the store's `set_title`
    /// is called with `title` as it is.
    pub fn set_title(&mut self, title: String)
        ensures
            final(self).store() == old(self).store(),
            call_ensures(S::set_title, (&old(self).store(), title), ()),
    {
        self.game_save.set_title(title);
    }

    /// Loads the save of the running cartridge: the result is always `Ok`,
    /// and holds the bytes that the store's `load` returned, unchanged. A
    /// store without a save for the title returns no bytes, and that is no
    /// error.
    pub fn load(&self) -> (loaded: Result<Vec<u8>, std::io::Error>)
        ensures
            loaded matches Ok(ram) && call_ensures(S::load, (&self.store(),), ram),
    {
        Ok(self.game_save.load())
    }

    /// Saves the battery-backed RAM of the running cartridge: the store's
    /// `save` is called with a copy of `ram`, and the result is always `Ok`.
    pub fn save(&self, ram: &[u8]) -> (saved: Result<(), std::io::Error>)
        ensures
            saved is Ok,
            exists|copy: Vec<u8>|
                copy@ == ram@ && #[trigger] call_ensures(S::save, (&self.store(), copy), ()),
    {
        let copy = copy_of(ram);
        self.game_save.save(copy);
        assert(call_ensures(S::save, (&self.store(), copy), ()));
        Ok(())
    }
}

/// An owned copy of a byte slice.
fn copy_of(bytes: &[u8]) -> (copy: Vec<u8>)
    ensures
        copy@ == bytes@,
{
    let mut copy: Vec<u8> = Vec::with_capacity(bytes.len());
    let mut i: usize = 0;
    while i < bytes.len()
        invariant
            i <= bytes.len(),
            copy@ == bytes@.take(i as int),
        decreases bytes.len() - i,
    {
        copy.push(bytes[i]);
        i += 1;
    }
    copy
}

} // verus!
