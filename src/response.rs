use vstd::prelude::*;

verus! {

/// The key/value attributes that a call reports back to the host, in order.
#[derive(Clone, Debug, PartialEq, Eq)]
pub struct Response {
    pub attributes: Vec<(String, String)>,
}

impl Response {
    /// The attributes as pairs of character sequences.
    pub open spec fn attrs(&self) -> Seq<(Seq<char>, Seq<char>)> {
        self.attributes@.map_values(|p: (String, String)| (p.0@, p.1@))
    }

    pub fn new() -> (r: Response)
        ensures
            r.attrs() == Seq::<(Seq<char>, Seq<char>)>::empty(),
    {
        let r = Response { attributes: Vec::new() };
        assert(r.attrs() =~= Seq::<(Seq<char>, Seq<char>)>::empty());
        r
    }

    /// Appends one attribute after those already present.
    pub fn add_attribute(self, key: &str, value: String) -> (r: Response)
        ensures
            r.attrs() == self.attrs().push((key@, value@)),
    {
        let mut attributes = self.attributes;
        attributes.push((String::from_str(key), value));
        let r = Response { attributes };
        assert(r.attrs() =~= self.attrs().push((key@, value@)));
        r
    }
}

} // verus!
