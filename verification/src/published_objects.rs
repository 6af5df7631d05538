//! The published package and the created objects of an execution result,
//! grouped by the type of the object.

use vstd::prelude::*;
use vstd::string::StringExecFns;
use crate::error::{ResponseError, ResponseErrorView};
use crate::ids::ObjectId;
use crate::views::result_view;
use crate::response::{
    object_changes_from_tx_result, ExecutionResult, ExecutionResultView, ObjectChange,
    ObjectChangeView, StructTag, StructTagView,
};

verus! {

/// An object that a transaction created, with its type.
#[derive(Clone, Debug, PartialEq, Eq)]
pub struct CreatedObject {
    pub object_id: ObjectId,
    pub object_type: StructTag,
}

/// The mathematical value of a [`CreatedObject`].
pub struct CreatedObjectView {
    pub object_id: ObjectId,
    pub object_type: StructTagView,
}

impl View for CreatedObject {
    type V = CreatedObjectView;

    open spec fn view(&self) -> CreatedObjectView {
        CreatedObjectView { object_id: self.object_id, object_type: self.object_type@ }
    }
}

impl DeepView for CreatedObject {
    type V = CreatedObjectView;

    open spec fn deep_view(&self) -> CreatedObjectView {
        self@
    }
}

/// The text that stands between the module and the name in a type key.
pub open spec fn key_separator() -> Seq<char> {
    seq![':', ':']
}

/// The key under which objects of type `tag` are grouped: the module, two
/// colons, the type's name. The package address and the type arguments take no
/// part in it.
pub open spec fn type_key(tag: StructTagView) -> Seq<char> {
    tag.module + key_separator() + tag.name
}

/// The created object that `change` records under `key`, if it records one.
pub open spec fn created_under(key: Seq<char>) -> spec_fn(ObjectChangeView) -> Option<
    CreatedObjectView,
> {
    |change: ObjectChangeView|
        match change {
            ObjectChangeView::Created { object_id, object_type } => if type_key(object_type)
                == key {
                Some(CreatedObjectView { object_id, object_type })
            } else {
                None
            },
            _ => None,
        }
}

/// The objects that `changes` records as created under `key`, in the order of
/// `changes`.
pub open spec fn created_with_key(changes: Seq<ObjectChangeView>, key: Seq<char>) -> Seq<
    CreatedObjectView,
> {
    changes.filter_map(created_under(key))
}

/// The created objects of `changes` by type key. A key is present exactly when
/// `changes` records an object under it.
pub open spec fn created_by_type(changes: Seq<ObjectChangeView>) -> Map<
    Seq<char>,
    Seq<CreatedObjectView>,
> {
    Map::new(
        |key: Seq<char>| created_with_key(changes, key).len() > 0,
        |key: Seq<char>| created_with_key(changes, key),
    )
}

/// The package that `change` records as published, if it records one.
pub open spec fn published_in(change: ObjectChangeView) -> Option<ObjectId> {
    match change {
        ObjectChangeView::Published { package_id } => Some(package_id),
        _ => None,
    }
}

/// The package of the last publication that `changes` records.
pub open spec fn published_package(changes: Seq<ObjectChangeView>) -> Option<ObjectId> {
    let published = changes.filter_map(|change: ObjectChangeView| published_in(change));
    if published.len() == 0 {
        None
    } else {
        Some(published.last())
    }
}

/// The package of [`published_package`] is that of the last publication in
/// `changes`: a publication that no other follows. There is none exactly when
/// `changes` records no publication.
pub proof fn published_package_is_last_publication(changes: Seq<ObjectChangeView>)
    ensures
        match published_package(changes) {
            Some(package_id) => exists|i: int|
                {
                    &&& 0 <= i < changes.len()
                    &&& #[trigger] changes[i] == (ObjectChangeView::Published { package_id })
                    &&& forall|j: int|
                        i < j < changes.len() ==> !((#[trigger] changes[j]) is Published)
                },
            None => forall|i: int|
                0 <= i < changes.len() ==> !((#[trigger] changes[i]) is Published),
        },
    decreases changes.len(),
{
    if changes.len() > 0 {
        let rest = changes.drop_last();
        published_package_is_last_publication(rest);
        assert(forall|i: int| 0 <= i < rest.len() ==> rest[i] == changes[i]);
        match changes.last() {
            ObjectChangeView::Published { package_id } => {
                assert(published_package(changes) == Some(package_id));
                assert(changes[changes.len() - 1] == (ObjectChangeView::Published { package_id }));
            },
            _ => {
                assert(published_package(changes) == published_package(rest));
                match published_package(rest) {
                    Some(package_id) => {
                        let i = choose|i: int|
                            {
                                &&& 0 <= i < rest.len()
                                &&& #[trigger] rest[i] == (ObjectChangeView::Published {
                                    package_id,
                                })
                                &&& forall|j: int|
                                    i < j < rest.len() ==> !((#[trigger] rest[j]) is Published)
                            };
                        assert(changes[i] == (ObjectChangeView::Published { package_id }));
                        assert forall|j: int| i < j < changes.len() implies !((
                        #[trigger] changes[j]) is Published) by {
                            if j < rest.len() {
                                assert(rest[j] == changes[j]);
                            }
                        }
                    },
                    None => {
                        assert forall|i: int| 0 <= i < changes.len() implies !((
                        #[trigger] changes[i]) is Published) by {
                            if i < rest.len() {
                                assert(rest[i] == changes[i]);
                            }
                        }
                    },
                }
            },
        }
    }
}

/// The key under which objects of type `tag` are grouped.
pub fn object_key(tag: &StructTag) -> (key: String)
    ensures
        key@ == type_key(tag@),
{
    proof {
        reveal_strlit("::");
    }
    assert("::"@ =~= key_separator());
    let mut key = tag.module.clone();
    key.append("::");
    key.append(tag.name.as_str());
    key
}

/// The objects created under one type key, in the order in which they were
/// recorded.
#[derive(Debug)]
struct ObjectGroup {
    key: String,
    objects: Vec<CreatedObject>,
}

/// The keys of `groups`, in their order.
spec fn group_keys(groups: Seq<ObjectGroup>) -> Seq<Seq<char>> {
    Seq::new(groups.len(), |i: int| groups[i].key@)
}

/// Created objects by type key. Each key occurs once; the objects under a key
/// stand in the order in which they were added.
#[derive(Debug)]
pub struct CreatedObjectIndex {
    groups: Vec<ObjectGroup>,
}

impl CreatedObjectIndex {
    /// The keys of the index, in the order in which they were first added.
    pub closed spec fn keys(&self) -> Seq<Seq<char>> {
        group_keys(self.groups@)
    }

    #[verifier::type_invariant]
    closed spec fn keys_are_distinct(&self) -> bool {
        self.keys().no_duplicates()
    }

    /// An index without keys.
    pub fn new() -> (index: CreatedObjectIndex)
        ensures
            index@ == Map::<Seq<char>, Seq<CreatedObjectView>>::empty(),
            index.keys() == Seq::<Seq<char>>::empty(),
    {
        let index = CreatedObjectIndex { groups: Vec::new() };
        assert(index@ =~= Map::<Seq<char>, Seq<CreatedObjectView>>::empty());
        assert(index.keys() =~= Seq::<Seq<char>>::empty());
        index
    }

    /// The position of the group with the given key.
    fn position(&self, key: &String) -> (found: Option<usize>)
        ensures
            match found {
                Some(i) => i < self.keys().len() && self.keys()[i as int] == key@,
                None => !self.keys().contains(key@),
            },
    {
        let mut i: usize = 0;
        while i < self.groups.len()
            invariant
                i <= self.groups.len(),
                forall|j: int| 0 <= j < i ==> self.keys()[j] != key@,
            decreases self.groups.len() - i,
        {
            if self.groups[i].key == *key {
                return Some(i);
            }
            i = i + 1;
        }
        None
    }

    /// The number of keys.
    pub fn len(&self) -> (n: usize)
        ensures
            n == self@.dom().len(),
            n == self.keys().len(),
            self@.dom().finite(),
    {
        proof {
            use_type_invariant(self);
            self.keys().unique_seq_to_set();
            assert(self@.dom() =~= self.keys().to_set());
        }
        self.groups.len()
    }

    /// Whether no key is present.
    pub fn is_empty(&self) -> (empty: bool)
        ensures
            empty == (self@.dom().len() == 0),
            self@.dom().finite(),
    {
        self.len() == 0
    }

    /// The objects under `key`, in the order in which they were added; `None`
    /// exactly when the key is absent.
    pub fn get(&self, key: &str) -> (found: Option<&Vec<CreatedObject>>)
        ensures
            match found {
                Some(objects) => self@.contains_key(key@) && self@[key@] == objects.deep_view(),
                None => !self@.contains_key(key@),
            },
    {
        proof {
            use_type_invariant(self);
        }
        let owned = String::from_str(key);
        match self.position(&owned) {
            Some(i) => {
                assert(self.keys().index_of(key@) == i);
                Some(&self.groups[i].objects)
            },
            None => None,
        }
    }

    /// Whether `key` is present.
    pub fn contains_key(&self, key: &str) -> (present: bool)
        ensures
            present == self@.contains_key(key@),
    {
        self.get(key).is_some()
    }

    /// Appends `created` to the objects under `key`; the key is added with
    /// `created` as its only object if it was absent.
    pub fn insert(&mut self, key: String, created: CreatedObject)
        ensures
            final(self)@ == old(self)@.insert(
                key@,
                if old(self)@.contains_key(key@) {
                    old(self)@[key@].push(created@)
                } else {
                    seq![created@]
                },
            ),
    {
        proof {
            use_type_invariant(&*self);
        }
        let ghost before = *self;
        let found = self.position(&key);
        let mut groups: Vec<ObjectGroup> = Vec::new();
        core::mem::swap(&mut self.groups, &mut groups);
        match found {
            Some(i) => {
                assert(before.keys().index_of(key@) == i);
                groups[i].objects.push(created);
                assert(group_keys(groups@) =~= before.keys());
                let after = CreatedObjectIndex { groups };
                assert(after.keys() =~= before.keys());
                assert forall|k: Seq<char>| after.keys().contains(k) implies #[trigger] after@[k]
                    == before@.insert(key@, before@[key@].push(created@))[k] by {
                    let j = after.keys().index_of(k);
                    assert(before.keys().index_of(k) == j);
                    if j == i {
                        assert(after.groups@[j].objects.deep_view() =~= before@[key@].push(
                            created@,
                        ));
                    } else {
                        assert(after.groups@[j] == before.groups@[j]);
                    }
                }
                assert(after@ =~= before@.insert(key@, before@[key@].push(created@)));
                *self = after;
            },
            None => {
                let mut objects: Vec<CreatedObject> = Vec::new();
                objects.push(created);
                assert(objects.deep_view() =~= seq![created@]);
                let ghost text = key@;
                groups.push(ObjectGroup { key, objects });
                assert(group_keys(groups@) =~= before.keys().push(text));
                let after = CreatedObjectIndex { groups };
                assert(after.keys() =~= before.keys().push(text));
                assert forall|k: Seq<char>| after.keys().contains(k) implies #[trigger] after@[k]
                    == before@.insert(text, seq![created@])[k] by {
                    let j = after.keys().index_of(k);
                    if j < before.keys().len() {
                        assert(before.keys()[j] == k);
                        assert(before.keys().index_of(k) == j);
                        assert(after.groups@[j] == before.groups@[j]);
                    }
                }
                assert forall|k: Seq<char>| after.keys().contains(k) <==> before@.insert(
                    text,
                    seq![created@],
                ).contains_key(k) by {
                    if before.keys().contains(k) {
                        let j = before.keys().index_of(k);
                        assert(after.keys()[j] == k);
                    }
                    if k == text {
                        assert(after.keys()[before.keys().len() as int] == k);
                    }
                }
                assert(after@ =~= before@.insert(text, seq![created@]));
                *self = after;
            },
        }
    }
}

impl View for CreatedObjectIndex {
    type V = Map<Seq<char>, Seq<CreatedObjectView>>;

    closed spec fn view(&self) -> Map<Seq<char>, Seq<CreatedObjectView>> {
        Map::new(
            |key: Seq<char>| self.keys().contains(key),
            |key: Seq<char>| self.groups@[self.keys().index_of(key)].objects.deep_view(),
        )
    }
}

/// The package that a transaction published and the objects that it created,
/// by type key.
#[derive(Debug)]
pub struct PublishedObjects {
    pub package_id: ObjectId,
    pub objects: CreatedObjectIndex,
}

/// The mathematical value of [`PublishedObjects`].
pub struct PublishedObjectsView {
    pub package_id: ObjectId,
    pub objects: Map<Seq<char>, Seq<CreatedObjectView>>,
}

impl View for PublishedObjects {
    type V = PublishedObjectsView;

    open spec fn view(&self) -> PublishedObjectsView {
        PublishedObjectsView { package_id: self.package_id, objects: self.objects@ }
    }
}

impl DeepView for PublishedObjects {
    type V = PublishedObjectsView;

    open spec fn deep_view(&self) -> PublishedObjectsView {
        self@
    }
}

/// What a list of object changes yields: the package of the last publication
/// and every created object under its type key; `MissingPackageId` if the list
/// records no publication.
pub open spec fn partition_changes(changes: Seq<ObjectChangeView>) -> Result<
    PublishedObjectsView,
    ResponseErrorView,
> {
    match published_package(changes) {
        Some(package_id) => Ok(
            PublishedObjectsView { package_id, objects: created_by_type(changes) },
        ),
        None => Err(ResponseErrorView::MissingPackageId),
    }
}

/// What an execution result yields: its object changes, partitioned.
pub open spec fn published_objects(result: ExecutionResultView) -> Result<
    PublishedObjectsView,
    ResponseErrorView,
> {
    match result.object_changes() {
        Ok(changes) => partition_changes(changes),
        Err(e) => Err(e),
    }
}

/// The package of the last publication that `changes` records.
pub fn find_published_package(changes: &Vec<ObjectChange>) -> (package: Option<ObjectId>)
    ensures
        package == published_package(changes.deep_view()),
{
    let ghost all = changes.deep_view();
    let mut package: Option<ObjectId> = None;
    let mut i: usize = 0;
    assert(all.take(0) =~= Seq::<ObjectChangeView>::empty());
    while i < changes.len()
        invariant
            i <= changes.len(),
            all == changes.deep_view(),
            package == published_package(all.take(i as int)),
        decreases changes.len() - i,
    {
        proof {
            all.lemma_filter_map_take_succ(|c: ObjectChangeView| published_in(c), i as int);
        }
        match &changes[i] {
            ObjectChange::Published { package_id } => {
                package = Some(*package_id);
            },
            _ => {},
        }
        i = i + 1;
    }
    assert(all.take(changes.len() as int) =~= all);
    package
}

/// An execution result whose object changes record no publication yields
/// `MissingPackageId`, whatever else they record.
pub proof fn no_publication_is_missing_package_id(result: ExecutionResultView)
    requires
        result.object_changes matches Some(changes) && forall|i: int|
            0 <= i < changes.len() ==> !((#[trigger] changes[i]) is Published),
    ensures
        published_objects(result) == Err::<PublishedObjectsView, ResponseErrorView>(
            ResponseErrorView::MissingPackageId,
        ),
{
    let changes = result.object_changes->Some_0;
    published_package_is_last_publication(changes);
    if published_package(changes) is Some {
        let package_id = published_package(changes)->Some_0;
        let i = choose|i: int|
            0 <= i < changes.len() && #[trigger] changes[i] == (ObjectChangeView::Published {
                package_id,
            });
        assert(changes[i] is Published);
    }
}

/// The objects under a key are the created objects of that key, in the order
/// of `changes`: the object at position `at` under `key` has that key, and
/// was recorded by the change before which exactly `at` objects of the key
/// were recorded.
pub proof fn objects_under_a_key_keep_their_order(
    changes: Seq<ObjectChangeView>,
    key: Seq<char>,
    at: int,
)
    requires
        0 <= at < created_with_key(changes, key).len(),
    ensures
        created_by_type(changes).contains_key(key),
        created_by_type(changes)[key] == created_with_key(changes, key),
        type_key(created_with_key(changes, key)[at].object_type) == key,
        exists|i: int|
            {
                &&& 0 <= i < changes.len()
                &&& created_under(key)(#[trigger] changes[i]) == Some(
                    created_with_key(changes, key)[at],
                )
                &&& created_with_key(changes.take(i), key).len() == at
            },
    decreases changes.len(),
{
    let rest = changes.drop_last();
    let last = changes.len() - 1;
    assert(changes.take(last) =~= rest);
    assert(changes.take(changes.len() as int) =~= changes);
    let under_rest = created_with_key(rest, key);
    if at < under_rest.len() {
        objects_under_a_key_keep_their_order(rest, key, at);
        let i = choose|i: int|
            {
                &&& 0 <= i < rest.len()
                &&& created_under(key)(#[trigger] rest[i]) == Some(under_rest[at])
                &&& created_with_key(rest.take(i), key).len() == at
            };
        assert(rest[i] == changes[i]);
        assert(rest.take(i) =~= changes.take(i));
    } else {
        assert(created_under(key)(changes[last]) == Some(created_with_key(changes, key)[at]));
    }
}

/// Groups the created objects of `changes` by type key, in one pass.
pub fn group_created(changes: Vec<ObjectChange>) -> (found: (Option<ObjectId>, CreatedObjectIndex))
    ensures
        found.0 == published_package(changes.deep_view()),
        found.1@ == created_by_type(changes.deep_view()),
{
    let ghost all = changes.deep_view();
    let ghost items = changes@;
    let mut package: Option<ObjectId> = None;
    let mut objects = CreatedObjectIndex::new();
    assert(all.take(0) =~= Seq::<ObjectChangeView>::empty());
    assert(objects@ =~= created_by_type(all.take(0)));
    for change in it: changes.into_iter()
        invariant
            it.seq() == items,
            all == Seq::new(items.len(), |i: int| items[i]@),
            package == published_package(all.take(it.index() as int)),
            objects@ == created_by_type(all.take(it.index() as int)),
    {
        let ghost i = it.index() as int;
        assert(change == items[i]);
        assert(change@ == all[i]);
        proof {
            all.lemma_filter_map_take_succ(|c: ObjectChangeView| published_in(c), i);
            assert forall|key: Seq<char>| #[trigger]
                created_with_key(all.take(i + 1), key) == created_with_key(all.take(i), key) + (
                match created_under(key)(all[i]) {
                    Some(created) => seq![created],
                    None => Seq::empty(),
                }) by {
                all.lemma_filter_map_take_succ(created_under(key), i);
            }
        }
        match change {
            ObjectChange::Created { object_id, object_type } => {
                let key = object_key(&object_type);
                let created = CreatedObject { object_id, object_type };
                let ghost before = objects@;
                objects.insert(key, created);
                assert(objects@ =~= created_by_type(all.take(i + 1))) by {
                    assert forall|k: Seq<char>| #[trigger]
                        objects@.contains_key(k) == created_by_type(
                            all.take(i + 1),
                        ).contains_key(k) by {
                        assert(before.contains_key(k) == (created_with_key(all.take(i), k).len()
                            > 0));
                    }
                    assert forall|k: Seq<char>| objects@.contains_key(k) implies #[trigger]
                        objects@[k] == created_by_type(all.take(i + 1))[k] by {
                        assert(before.contains_key(k) == (created_with_key(all.take(i), k).len()
                            > 0));
                        if k == key@ {
                            if !before.contains_key(k) {
                                assert(created_with_key(all.take(i), k) =~= Seq::empty());
                            }
                        }
                    }
                }
            },
            ObjectChange::Published { package_id } => {
                package = Some(package_id);
                assert(objects@ =~= created_by_type(all.take(i + 1)));
            },
            ObjectChange::Other => {
                assert(objects@ =~= created_by_type(all.take(i + 1)));
            },
        }
    }
    assert(all.take(items.len() as int) =~= all);
    (package, objects)
}

impl PublishedObjects {
    /// Partitions a list of object changes: the package of the last
    /// publication in the list, and every created object under its type key,
    /// in the order of the list. Fails with `MissingPackageId` exactly when the
    /// list records no publication.
    pub fn from_changes(changes: Vec<ObjectChange>) -> (res: Result<
        PublishedObjects,
        ResponseError,
    >)
        ensures
            result_view(res) == partition_changes(changes.deep_view()),
    {
        let (package, objects) = group_created(changes);
        match package {
            Some(package_id) => Ok(PublishedObjects { package_id, objects }),
            None => Err(ResponseError::MissingPackageId),
        }
    }

    /// Reads the published package and the created objects out of an execution
    /// result: its object changes, then [`PublishedObjects::from_changes`].
    /// Fails with `MissingObjectChanges` exactly when the result reports no
    /// object changes, else with `MissingPackageId` exactly when they record
    /// no publication.
    pub fn try_from(value: ExecutionResult) -> (res: Result<PublishedObjects, ResponseError>)
        ensures
            result_view(res) == published_objects(value@),
    {
        match object_changes_from_tx_result(value) {
            Ok(changes) => PublishedObjects::from_changes(changes),
            Err(e) => Err(e),
        }
    }
}

} // verus!
