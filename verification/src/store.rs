//! The asset store: named meshes and textures whose device resources the
//! renderer owns.  Loads fail fast on a name collision instead of silently
//! overwriting a live resource, and unloads remove exactly the named entry.

use vstd::prelude::*;

use crate::error::EngineError;

verus! {

/// The device-side resources of one mesh, as plain handles, with the
/// counts the draw call needs.
#[derive(Clone, Copy, Debug, PartialEq, Eq, Structural)]
pub struct Mesh {
    pub vertex_buffer: u64,
    pub vertex_buffer_memory: u64,
    pub index_count: u32,
    pub index_buffer: u64,
    pub index_buffer_memory: u64,
    pub instance_count: u32,
    pub instance_buffer: u64,
    pub instance_buffer_memory: u64,
}

/// A loaded model: its meshes.
#[derive(Clone, Debug, PartialEq)]
pub struct Model {
    pub meshes: Vec<Mesh>,
}

/// The device-side resources of one texture, as plain handles, with its
/// dimensions and mip-level count.
#[derive(Clone, Copy, Debug, PartialEq, Eq, Structural)]
pub struct Texture {
    pub image: u64,
    pub image_view: u64,
    pub image_memory: u64,
    pub sampler: u64,
    pub width: u32,
    pub height: u32,
    pub mip_levels: u32,
}

/// Some entry of the list bears this name.
pub open spec fn has_name<T>(entries: Seq<(String, T)>, name: Seq<char>) -> bool {
    exists|i: int| 0 <= i < entries.len() && entries[i].0@ == name
}

/// The index of the entry bearing this name.
pub open spec fn name_index<T>(entries: Seq<(String, T)>, name: Seq<char>) -> int {
    choose|i: int| 0 <= i < entries.len() && entries[i].0@ == name
}

/// No two entries of the list share a name.
pub open spec fn unique_names<T>(entries: Seq<(String, T)>) -> bool {
    forall|i: int, j: int| 0 <= i < j < entries.len() ==> entries[i].0@ != entries[j].0@
}

/// The named mapping of loaded models and textures, with the list of
/// models drawn each frame.
#[derive(Debug)]
pub struct Assets {
    pub models: Vec<(String, Model)>,
    pub active_models: Vec<String>,
    pub textures: Vec<(String, Texture)>,
}

impl Assets {
    /// Names are unique within each map.
    pub open spec fn wf(&self) -> bool {
        &&& unique_names(self.models@)
        &&& unique_names(self.textures@)
    }

    /// An empty store.
    pub fn new() -> (r: Assets)
        ensures
            r.wf(),
            r.models@.len() == 0,
            r.active_models@.len() == 0,
            r.textures@.len() == 0,
    {
        Assets { models: Vec::new(), active_models: Vec::new(), textures: Vec::new() }
    }

    /// Binds `name` to a loaded model.  Fails with a duplicate-name error,
    /// leaving the store unchanged, exactly when the name is already bound.
    pub fn load_model(&mut self, name: &str, model: Model) -> (r: Result<(), EngineError>)
        requires
            old(self).wf(),
        ensures
            final(self).wf(),
            final(self).textures == old(self).textures,
            final(self).active_models == old(self).active_models,
            match r {
                Ok(()) => {
                    &&& !has_name(old(self).models@, name@)
                    &&& final(self).models@.len() == old(self).models@.len() + 1
                    &&& final(self).models@.drop_last() == old(self).models@
                    &&& final(self).models@.last().0@ == name@
                    &&& final(self).models@.last().1 == model
                },
                Err(e) => {
                    &&& has_name(old(self).models@, name@)
                    &&& e == EngineError::DuplicateName
                    &&& *final(self) == *old(self)
                },
            },
    {
        let key: String = name.to_owned();
        match find_model(&self.models, &key) {
            Some(_) => Err(EngineError::DuplicateName),
            None => {
                self.models.push((key, model));
                proof {
                    assert(final(self).models@.drop_last() =~= old(self).models@);
                    assert forall|i: int, j: int|
                        0 <= i < j < self.models@.len() implies self.models@[i].0@
                        != self.models@[j].0@ by {
                        if j == self.models@.len() - 1 {
                            assert(self.models@[i] == old(self).models@[i]);
                        }
                    }
                }
                Ok(())
            },
        }
    }

    /// Unbinds `name` from the model map; the caller releases the entry's
    /// device resources first.  Fails exactly when the name is not bound.
    pub fn unload_model(&mut self, name: &str) -> (r: Result<Model, EngineError>)
        requires
            old(self).wf(),
        ensures
            final(self).wf(),
            final(self).textures == old(self).textures,
            final(self).active_models == old(self).active_models,
            match r {
                Ok(m) => {
                    &&& has_name(old(self).models@, name@)
                    &&& m == old(self).models@[name_index(old(self).models@, name@)].1
                    &&& final(self).models@ == old(self).models@.remove(
                        name_index(old(self).models@, name@),
                    )
                },
                Err(e) => {
                    &&& !has_name(old(self).models@, name@)
                    &&& e == EngineError::NameNotFound
                    &&& *final(self) == *old(self)
                },
            },
    {
        let key: String = name.to_owned();
        match find_model(&self.models, &key) {
            Some(i) => {
                let (_, m) = self.models.remove(i);
                proof {
                    let entries = old(self).models@;
                    let ghost ni = name_index(entries, name@);
                    assert(entries[i as int].0@ == name@);
                    assert(ni == i as int);
                    assert forall|a: int, b: int|
                        0 <= a < b < self.models@.len() implies self.models@[a].0@
                        != self.models@[b].0@ by {
                        assert(self.models@[a] == if a < i as int {
                            entries[a]
                        } else {
                            entries[a + 1]
                        });
                        assert(self.models@[b] == if b < i as int {
                            entries[b]
                        } else {
                            entries[b + 1]
                        });
                    }
                }
                Ok(m)
            },
            None => Err(EngineError::NameNotFound),
        }
    }

    /// Looks a model up by name.
    pub fn get_model(&self, name: &str) -> (r: Option<&Model>)
        requires
            self.wf(),
        ensures
            match r {
                Some(m) => {
                    &&& has_name(self.models@, name@)
                    &&& *m == self.models@[name_index(self.models@, name@)].1
                },
                None => !has_name(self.models@, name@),
            },
    {
        let key: String = name.to_owned();
        match find_model(&self.models, &key) {
            Some(i) => {
                proof {
                    assert(self.models@[i as int].0@ == name@);
                    assert(name_index(self.models@, name@) == i as int);
                }
                Some(&self.models[i].1)
            },
            None => None,
        }
    }

    /// Binds `name` to a loaded texture.  Fails with a duplicate-name
    /// error, leaving the store unchanged, exactly when the name is
    /// already bound.
    pub fn load_texture(&mut self, name: &str, texture: Texture) -> (r: Result<(), EngineError>)
        requires
            old(self).wf(),
        ensures
            final(self).wf(),
            final(self).models == old(self).models,
            final(self).active_models == old(self).active_models,
            match r {
                Ok(()) => {
                    &&& !has_name(old(self).textures@, name@)
                    &&& final(self).textures@.len() == old(self).textures@.len() + 1
                    &&& final(self).textures@.drop_last() == old(self).textures@
                    &&& final(self).textures@.last().0@ == name@
                    &&& final(self).textures@.last().1 == texture
                },
                Err(e) => {
                    &&& has_name(old(self).textures@, name@)
                    &&& e == EngineError::DuplicateName
                    &&& *final(self) == *old(self)
                },
            },
    {
        let key: String = name.to_owned();
        match find_texture(&self.textures, &key) {
            Some(_) => Err(EngineError::DuplicateName),
            None => {
                self.textures.push((key, texture));
                proof {
                    assert(final(self).textures@.drop_last() =~= old(self).textures@);
                    assert forall|i: int, j: int|
                        0 <= i < j < self.textures@.len() implies self.textures@[i].0@
                        != self.textures@[j].0@ by {
                        if j == self.textures@.len() - 1 {
                            assert(self.textures@[i] == old(self).textures@[i]);
                        }
                    }
                }
                Ok(())
            },
        }
    }

    /// Unbinds `name` from the texture map; the caller releases the
    /// entry's device resources first.  Fails exactly when the name is not
    /// bound.
    pub fn unload_texture(&mut self, name: &str) -> (r: Result<Texture, EngineError>)
        requires
            old(self).wf(),
        ensures
            final(self).wf(),
            final(self).models == old(self).models,
            final(self).active_models == old(self).active_models,
            match r {
                Ok(t) => {
                    &&& has_name(old(self).textures@, name@)
                    &&& t == old(self).textures@[name_index(old(self).textures@, name@)].1
                    &&& final(self).textures@ == old(self).textures@.remove(
                        name_index(old(self).textures@, name@),
                    )
                },
                Err(e) => {
                    &&& !has_name(old(self).textures@, name@)
                    &&& e == EngineError::NameNotFound
                    &&& *final(self) == *old(self)
                },
            },
    {
        let key: String = name.to_owned();
        match find_texture(&self.textures, &key) {
            Some(i) => {
                let (_, t) = self.textures.remove(i);
                proof {
                    let entries = old(self).textures@;
                    let ghost ni = name_index(entries, name@);
                    assert(entries[i as int].0@ == name@);
                    assert(ni == i as int);
                    assert forall|a: int, b: int|
                        0 <= a < b < self.textures@.len() implies self.textures@[a].0@
                        != self.textures@[b].0@ by {
                        assert(self.textures@[a] == if a < i as int {
                            entries[a]
                        } else {
                            entries[a + 1]
                        });
                        assert(self.textures@[b] == if b < i as int {
                            entries[b]
                        } else {
                            entries[b + 1]
                        });
                    }
                }
                Ok(t)
            },
            None => Err(EngineError::NameNotFound),
        }
    }

    /// Looks a texture up by name.
    pub fn get_texture(&self, name: &str) -> (r: Option<&Texture>)
        requires
            self.wf(),
        ensures
            match r {
                Some(t) => {
                    &&& has_name(self.textures@, name@)
                    &&& *t == self.textures@[name_index(self.textures@, name@)].1
                },
                None => !has_name(self.textures@, name@),
            },
    {
        let key: String = name.to_owned();
        match find_texture(&self.textures, &key) {
            Some(i) => {
                proof {
                    assert(self.textures@[i as int].0@ == name@);
                    assert(name_index(self.textures@, name@) == i as int);
                }
                Some(&self.textures[i].1)
            },
            None => None,
        }
    }
}

impl Default for Assets {
    /// The empty store.
    fn default() -> (r: Assets)
        ensures
            r.wf(),
            r.models@.len() == 0,
            r.active_models@.len() == 0,
            r.textures@.len() == 0,
    {
        Assets::new()
    }
}

/// The index of the first model entry bearing `key`'s name.
fn find_model(entries: &Vec<(String, Model)>, key: &String) -> (r: Option<usize>)
    ensures
        match r {
            Some(i) => (i as int) < entries@.len() && entries@[i as int].0@ == key@,
            None => !has_name(entries@, key@),
        },
{
    let n = entries.len();
    let mut i: usize = 0;
    while i < n
        invariant
            n == entries@.len(),
            i <= n,
            forall|j: int| 0 <= j < i ==> entries@[j].0@ != key@,
        decreases n - i,
    {
        if entries[i].0 == *key {
            return Some(i);
        }
        i = i + 1;
    }
    None
}

/// The index of the first texture entry bearing `key`'s name.
fn find_texture(entries: &Vec<(String, Texture)>, key: &String) -> (r: Option<usize>)
    ensures
        match r {
            Some(i) => (i as int) < entries@.len() && entries@[i as int].0@ == key@,
            None => !has_name(entries@, key@),
        },
{
    let n = entries.len();
    let mut i: usize = 0;
    while i < n
        invariant
            n == entries@.len(),
            i <= n,
            forall|j: int| 0 <= j < i ==> entries@[j].0@ != key@,
        decreases n - i,
    {
        if entries[i].0 == *key {
            return Some(i);
        }
        i = i + 1;
    }
    None
}

} // verus!
