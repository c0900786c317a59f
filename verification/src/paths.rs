//! File-system paths as sequences of components.
//!
//! The host's path type is specific to its platform; what the editor decides
//! about a path it decides about its components, which the caller converts to
//! and from the host's form.
use vstd::prelude::*;

verus! {

/// One component of a path.
#[derive(Debug)]
pub enum PathPart {
    /// A drive or a share.
    Prefix(String),
    Root,
    Current,
    Parent,
    Normal(String),
    /// A name that is no valid text, by its encoded bytes.
    Unreadable(Vec<u8>),
}

/// A component as a value.
pub enum Part {
    Prefix(Seq<char>),
    Root,
    Current,
    Parent,
    Normal(Seq<char>),
    Unreadable(Seq<u8>),
}

impl PathPart {
    pub open spec fn part(self) -> Part {
        match self {
            PathPart::Prefix(text) => Part::Prefix(text@),
            PathPart::Root => Part::Root,
            PathPart::Current => Part::Current,
            PathPart::Parent => Part::Parent,
            PathPart::Normal(text) => Part::Normal(text@),
            PathPart::Unreadable(bytes) => Part::Unreadable(bytes@),
        }
    }

    fn copy(&self) -> (r: PathPart)
        ensures
            r.part() == self.part(),
    {
        match self {
            PathPart::Prefix(text) => PathPart::Prefix(text.clone()),
            PathPart::Root => PathPart::Root,
            PathPart::Current => PathPart::Current,
            PathPart::Parent => PathPart::Parent,
            PathPart::Normal(text) => PathPart::Normal(text.clone()),
            PathPart::Unreadable(bytes) => {
                let mut copied: Vec<u8> = Vec::new();
                let mut i: usize = 0;
                while i < bytes.len()
                    invariant
                        i <= bytes@.len(),
                        copied@ == bytes@.take(i as int),
                    decreases bytes@.len() - i,
                {
                    copied.push(bytes[i]);
                    i += 1;
                    assert(copied@ =~= bytes@.take(i as int));
                }
                assert(copied@ =~= bytes@);
                PathPart::Unreadable(copied)
            },
        }
    }
}

/// A path as its components.
#[derive(Debug)]
pub struct AppPath {
    pub parts: Vec<PathPart>,
}

impl View for AppPath {
    type V = Seq<Part>;

    open spec fn view(&self) -> Seq<Part> {
        self.parts@.map_values(|part: PathPart| part.part())
    }
}

/// The name that ends a path, if it ends in one.
pub open spec fn last_name(path: Seq<Part>) -> Option<Seq<char>> {
    if path.len() == 0 {
        None
    } else {
        match path.last() {
            Part::Normal(name) => Some(name),
            _ => None,
        }
    }
}

/// The position of the last dot.
pub open spec fn last_dot(name: Seq<char>) -> Option<int>
    decreases name.len(),
{
    if name.len() == 0 {
        None
    } else if name.last() == '.' {
        Some(name.len() - 1)
    } else {
        last_dot(name.drop_last())
    }
}

/// The name without its extension. A dot that opens the name starts none.
pub open spec fn stem_of(name: Seq<char>) -> Seq<char> {
    match last_dot(name) {
        Some(at) if at > 0 => name.take(at),
        _ => name,
    }
}

impl AppPath {
    /// The parts from the start up to `end`.
    fn copy_parts(&self, end: usize) -> (r: AppPath)
        requires
            end <= self.parts@.len(),
        ensures
            r@ == self@.take(end as int),
    {
        let mut parts: Vec<PathPart> = Vec::new();
        let mut i: usize = 0;
        while i < end
            invariant
                i <= end <= self.parts@.len(),
                parts@.len() == i,
                forall|j: int|
                    #![trigger parts@[j]]
                    0 <= j < i ==> parts@[j].part() == self.parts@[j].part(),
            decreases end - i,
        {
            parts.push(self.parts[i].copy());
            i += 1;
        }
        let r = AppPath { parts };
        assert(r@ =~= self@.take(end as int));
        r
    }

    /// The path of `name` inside this one.
    pub fn join(&self, name: &str) -> (r: AppPath)
        ensures
            r@ == self@.push(Part::Normal(name@)),
    {
        let mut r = self.copy_parts(self.parts.len());
        assert(r@ =~= self@);
        let ghost base = r@;
        r.parts.push(PathPart::Normal(name.to_owned()));
        assert(r@ =~= base.push(Part::Normal(name@)));
        r
    }

    /// The path without its last component. A root and a prefix have no
    /// parent, nor has the empty path.
    pub fn parent(&self) -> (r: Option<AppPath>)
        ensures
            match r {
                Some(parent) => {
                    &&& self@.len() > 0
                    &&& !(self@.last() is Root)
                    &&& !(self@.last() is Prefix)
                    &&& parent@ == self@.drop_last()
                },
                None => self@.len() == 0 || self@.last() is Root || self@.last() is Prefix,
            },
    {
        let len: usize = self.parts.len();
        if len == 0 {
            return None;
        }
        assert(self@.last() == self.parts@[len - 1].part());
        match &self.parts[len - 1] {
            PathPart::Root | PathPart::Prefix(_) => None,
            _ => {
                let parent = self.copy_parts(len - 1);
                assert(parent@ =~= self@.drop_last());
                Some(parent)
            },
        }
    }

    /// The name that ends the path, where it is readable text.
    pub fn file_name(&self) -> (r: Option<&String>)
        ensures
            match r {
                Some(name) => last_name(self@) == Some(name@),
                None => last_name(self@) is None,
            },
    {
        let len: usize = self.parts.len();
        if len == 0 {
            return None;
        }
        assert(self@.last() == self.parts@[len - 1].part());
        match &self.parts[len - 1] {
            PathPart::Normal(name) => Some(name),
            _ => None,
        }
    }

    /// The path with the extension of its name replaced.
    pub fn with_extension(&self, extension: &str) -> (r: AppPath)
        ensures
            match last_name(self@) {
                Some(name) => r@ == self@.drop_last().push(
                    Part::Normal(stem_of(name) + "."@ + extension@),
                ),
                None => r@ == self@,
            },
    {
        let len: usize = self.parts.len();
        match self.file_name() {
            None => {
                let r = self.copy_parts(len);
                assert(r@ =~= self@);
                r
            },
            Some(name) => {
                let mut file = file_stem(name.as_str());
                file.append(".");
                file.append(extension);
                let mut r = self.copy_parts(len - 1);
                r.parts.push(PathPart::Normal(file));
                assert(r@ =~= self@.drop_last().push(
                    Part::Normal(stem_of(name@) + "."@ + extension@),
                ));
                r
            },
        }
    }
}

proof fn last_dot_of_a_prefix(name: Seq<char>, end: int)
    requires
        0 <= end <= name.len(),
        forall|j: int| end <= j < name.len() ==> name[j] != '.',
    ensures
        last_dot(name) == last_dot(name.take(end)),
    decreases name.len() - end,
{
    if end == name.len() {
        assert(name.take(end) =~= name);
    } else {
        assert(name.last() != '.');
        last_dot_of_a_prefix(name.drop_last(), end);
        assert(name.drop_last().take(end) =~= name.take(end));
    }
}

fn file_stem(name: &str) -> (r: String)
    ensures
        r@ == stem_of(name@),
{
    let len: usize = name.unicode_len();
    let mut end: usize = len;
    while end > 0
        invariant
            end <= len,
            len == name@.len(),
            forall|j: int| end <= j < len ==> name@[j] != '.',
        decreases end,
    {
        let at: usize = end - 1;
        if name.get_char(at) == '.' {
            proof {
                last_dot_of_a_prefix(name@, end as int);
                assert(name@.take(end as int).last() == '.');
            }
            if at > 0 {
                let stem = name.substring_char(0, at).to_owned();
                assert(stem@ =~= name@.take(at as int));
                return stem;
            }
            return name.to_owned();
        }
        end = at;
    }
    proof {
        last_dot_of_a_prefix(name@, 0);
    }
    name.to_owned()
}

/// A file name by its encoded bytes orders before another.
pub open spec fn name_before(a: Seq<u8>, b: Seq<u8>) -> bool
    decreases a.len(),
{
    if b.len() == 0 {
        false
    } else if a.len() == 0 {
        true
    } else if a[0] != b[0] {
        a[0] < b[0]
    } else {
        name_before(a.drop_first(), b.drop_first())
    }
}

/// Whether one name orders before another.
pub fn orders_before(a: &Vec<u8>, b: &Vec<u8>) -> (r: bool)
    ensures
        r == name_before(a@, b@),
{
    let mut i: usize = 0;
    assert(a@.skip(0) =~= a@);
    assert(b@.skip(0) =~= b@);
    while i < a.len() && i < b.len()
        invariant
            i <= a@.len(),
            i <= b@.len(),
            name_before(a@, b@) == name_before(a@.skip(i as int), b@.skip(i as int)),
        decreases a@.len() - i,
    {
        let x: u8 = a[i];
        let y: u8 = b[i];
        assert(a@.skip(i as int)[0] == x);
        assert(b@.skip(i as int)[0] == y);
        if x != y {
            return x < y;
        }
        assert(a@.skip(i as int).drop_first() =~= a@.skip(i + 1));
        assert(b@.skip(i as int).drop_first() =~= b@.skip(i + 1));
        i += 1;
    }
    i < b.len()
}

/// The bytes of `.json`, in any mixture of cases.
pub open spec fn ends_in_json(name: Seq<u8>) -> bool {
    let n = name.len() as int;
    &&& n > 5
    &&& name[n - 5] == 46
    &&& name[n - 4] == 106 || name[n - 4] == 74
    &&& name[n - 3] == 115 || name[n - 3] == 83
    &&& name[n - 2] == 111 || name[n - 2] == 79
    &&& name[n - 1] == 110 || name[n - 1] == 78
}

fn is_json_name(name: &Vec<u8>) -> (r: bool)
    ensures
        r == ends_in_json(name@),
{
    let n: usize = name.len();
    if n <= 5 {
        return false;
    }
    name[n - 5] == 46 && (name[n - 4] == 106 || name[n - 4] == 74) && (name[n - 3] == 115
        || name[n - 3] == 83) && (name[n - 2] == 111 || name[n - 2] == 79) && (name[n - 1] == 110
        || name[n - 1] == 78)
}

/// `at` is the first JSON file of a folder, in the order of names.
pub open spec fn is_first_json(names: Seq<Vec<u8>>, at: int) -> bool {
    &&& 0 <= at < names.len()
    &&& ends_in_json(names[at]@)
    &&& forall|j: int|
        #![trigger names[j]]
        0 <= j < names.len() && ends_in_json(names[j]@) ==> !name_before(names[j]@, names[at]@)
}

/// Names are ordered: the order is transitive and nothing comes before itself.
pub proof fn name_order_is_transitive(a: Seq<u8>, b: Seq<u8>, c: Seq<u8>)
    ensures
        !name_before(b, a) && !name_before(c, b) ==> !name_before(c, a),
        !name_before(a, a),
        name_before(a, b) ==> !name_before(b, a),
    decreases a.len(),
{
    if a.len() > 0 {
        name_order_is_transitive(
            a.drop_first(),
            if b.len() > 0 {
                b.drop_first()
            } else {
                b
            },
            if c.len() > 0 {
                c.drop_first()
            } else {
                c
            },
        );
    }
}

/// The first JSON file among `names`, in the order of names.
pub fn first_project_file(names: &Vec<Vec<u8>>) -> (r: Option<usize>)
    ensures
        match r {
            Some(at) => is_first_json(names@, at as int),
            None => forall|j: int|
                #![trigger names@[j]]
                0 <= j < names@.len() ==> !ends_in_json(names@[j]@),
        },
{
    let mut best: Option<usize> = None;
    let mut i: usize = 0;
    while i < names.len()
        invariant
            i <= names@.len(),
            match best {
                Some(at) => {
                    &&& at < i
                    &&& ends_in_json(names@[at as int]@)
                    &&& forall|j: int|
                        #![trigger names@[j]]
                        0 <= j < i && ends_in_json(names@[j]@) ==> !name_before(
                            names@[j]@,
                            names@[at as int]@,
                        )
                },
                None => forall|j: int|
                    #![trigger names@[j]]
                    0 <= j < i ==> !ends_in_json(names@[j]@),
            },
        decreases names@.len() - i,
    {
        if is_json_name(&names[i]) {
            match best {
                None => {
                    proof {
                        name_order_is_transitive(
                            names@[i as int]@,
                            names@[i as int]@,
                            names@[i as int]@,
                        );
                    }
                    best = Some(i);
                },
                Some(at) => {
                    if orders_before(&names[i], &names[at]) {
                        proof {
                            let new = names@[i as int]@;
                            let former = names@[at as int]@;
                            assert forall|j: int|
                                #![trigger names@[j]]
                                0 <= j < i + 1 && ends_in_json(names@[j]@) implies !name_before(
                                names@[j]@,
                                new,
                            ) by {
                                name_order_is_transitive(new, former, names@[j]@);
                            }
                        }
                        best = Some(i);
                    }
                },
            }
        }
        i += 1;
    }
    best
}

/// A name is its stem, a dot and an extension without a dot, unless it has no dot
/// behind its first character; then it is all stem.
pub proof fn names_split_at_their_last_dot(name: Seq<char>, at: int)
    requires
        0 <= at < name.len(),
        name[at] == '.',
        forall|j: int| at < j < name.len() ==> name[j] != '.',
    ensures
        last_dot(name) == Some(at),
        at > 0 ==> stem_of(name) == name.take(at),
        at == 0 ==> stem_of(name) == name,
{
    last_dot_of_a_prefix(name, at + 1);
    assert(name.take(at + 1).last() == '.');
}

/// A name without a dot is all stem.
pub proof fn undotted_names_are_all_stem(name: Seq<char>)
    requires
        forall|j: int| 0 <= j < name.len() ==> name[j] != '.',
    ensures
        last_dot(name) is None,
        stem_of(name) == name,
{
    last_dot_of_a_prefix(name, 0);
}

/// What is joined to a path is its last name, and its parent is the path again.
pub proof fn joined_names_come_last(
    path: &AppPath,
    name: &str,
    joined: AppPath,
    parent: Option<AppPath>,
    last: Option<&String>,
)
    requires
        call_ensures(AppPath::join, (path, name), joined),
        call_ensures(AppPath::parent, (&joined,), parent),
        call_ensures(AppPath::file_name, (&joined,), last),
    ensures
        joined@.len() == path@.len() + 1,
        parent matches Some(back) && back@ == path@,
        last matches Some(text) && text@ == name@,
{
    assert(joined@.drop_last() =~= path@);
}

/// A replaced extension leaves the folder, and the name up to its last dot.
pub proof fn extensions_replace_the_last_one(path: &AppPath, extension: &str, renamed: AppPath)
    requires
        call_ensures(AppPath::with_extension, (path, extension), renamed),
    ensures
        renamed@.len() == path@.len(),
        path@.len() > 0 ==> renamed@.drop_last() == path@.drop_last(),
        path@.len() > 0 ==> (path@.last() matches Part::Normal(name) ==> (
        renamed@.last() matches Part::Normal(file) && file == stem_of(name) + "."@ + extension@)),
        path@.len() > 0 && !(path@.last() is Normal) ==> renamed@ == path@,
{
    if path@.len() > 0 {
        assert(renamed@.drop_last() =~= path@.drop_last());
    }
}

/// Names are ordered by their first different byte, and a name comes before every
/// longer one that it opens.
pub proof fn the_first_difference_orders_names(head: Seq<u8>, a: Seq<u8>, b: Seq<u8>)
    requires
        b.len() > 0,
    ensures
        a.len() > 0 && a[0] < b[0] ==> name_before(head + a, head + b),
        a.len() > 0 && a[0] > b[0] ==> !name_before(head + a, head + b),
        name_before(head, head + b),
        !name_before(head + b, head),
    decreases head.len(),
{
    if head.len() == 0 {
        assert(head + a =~= a);
        assert(head + b =~= b);
    } else {
        let rest = head.drop_first();
        assert((head + a).drop_first() =~= rest + a);
        assert((head + b).drop_first() =~= rest + b);
        the_first_difference_orders_names(rest, a, b);
    }
}

/// A file is a project by its extension, in any case, and only with a name before
/// it.
pub proof fn projects_end_in_json(stem: Seq<u8>)
    ensures
        stem.len() > 0 ==> ends_in_json(stem + seq![46u8, 106u8, 115u8, 111u8, 110u8]),
        stem.len() > 0 ==> ends_in_json(stem + seq![46u8, 74u8, 83u8, 79u8, 78u8]),
        stem.len() == 0 ==> !ends_in_json(stem + seq![46u8, 106u8, 115u8, 111u8, 110u8]),
        stem.len() > 4 && stem.last() != 110 && stem.last() != 78 ==> !ends_in_json(stem),
        stem.len() > 4 && stem[stem.len() - 5] != 46 ==> !ends_in_json(stem),
        stem.len() > 4 && ends_in_json(stem) ==> (stem[stem.len() - 4] == 106 || stem[stem.len()
            - 4] == 74) && (stem[stem.len() - 3] == 115 || stem[stem.len() - 3] == 83) && (
        stem[stem.len() - 2] == 111 || stem[stem.len() - 2] == 79),
{
}

/// A part stands for what it is.
pub proof fn parts_stand_for_what_they_are(part: PathPart)
    ensures
        part is Root <==> part.part() is Root,
        part is Current <==> part.part() is Current,
        part is Parent <==> part.part() is Parent,
        part is Prefix <==> part.part() is Prefix,
        part is Normal <==> part.part() is Normal,
        part is Unreadable <==> part.part() is Unreadable,
        part matches PathPart::Normal(text) ==> part.part() == Part::Normal(text@),
{
}

} // verus!
