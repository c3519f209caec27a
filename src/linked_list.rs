use vstd::prelude::*;

verus! {

/// One element of a `LinkedList`, linked to its successor by arena index.
struct Node<T> {
    value: T,
    next: Option<usize>,
}

/// The head of a last-in first-out list whose nodes live in an arena and
/// are linked by index rather than by pointer, so that every node has a
/// single owner and reclaiming one is explicit.
pub struct LinkedList<T> {
    head: Option<usize>,
    nodes: Vec<Node<T>>,
}

impl<T> LinkedList<T> {
    #[verifier::type_invariant]
    spec fn inv(&self) -> bool {
        &&& (self.head is None <==> self.nodes@.len() == 0)
        &&& (self.head matches Some(i) ==> i < self.nodes@.len())
    }

    /// The values held, in the order the arena stores them.
    pub closed spec fn view(&self) -> Seq<T> {
        self.nodes@.map_values(|n: Node<T>| n.value)
    }

    /// An empty list.
    pub fn new() -> (r: Self)
        ensures
            r@ == Seq::<T>::empty(),
    {
        let r = LinkedList { head: None, nodes: Vec::new() };
        assert(r@ =~= Seq::<T>::empty());
        r
    }

    /// Whether the list holds no value.
    pub fn is_empty(&self) -> (r: bool)
        ensures
            r == (self@.len() == 0),
    {
        proof {
            use_type_invariant(self);
        }
        self.head.is_none()
    }
}

} // verus!
