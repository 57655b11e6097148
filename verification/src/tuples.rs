//! Tuples, from one element to 23. A tuple is written as the sequence of its elements. It is
//! extracted from a sequence of exactly as many items: the first element from the first item,
//! and the others as the tuple of the arity below, down to the tuple of one element.

use vstd::prelude::*;
use crate::de::{split_tuple, tuple_reads, tuple_refusal, Extract};
use crate::error::{wrong_arity, wrong_variant, Asked, Failure, SerialError, Shape};
use crate::ser::Serialize;
use crate::text::{render_sequence, sequence_text, views};
use crate::value::{lemma_view_of_vec, Content, DeSerialResult};

verus! {

impl<A: Serialize> Serialize for (A,) {
    open spec fn text(&self) -> Seq<char> {
        sequence_text(seq![self.0.text()])
    }

    fn serialize(&self) -> (s: String) {
        let mut parts: Vec<String> = Vec::new();
        parts.push(self.0.serialize());
        proof {
            assert(views(parts@) == seq![self.0.text()]);
        }
        render_sequence(&parts)
    }
}

impl<A: Serialize, B: Serialize> Serialize for (A, B) {
    open spec fn text(&self) -> Seq<char> {
        sequence_text(seq![self.0.text(), self.1.text()])
    }

    fn serialize(&self) -> (s: String) {
        let mut parts: Vec<String> = Vec::new();
        parts.push(self.0.serialize());
        parts.push(self.1.serialize());
        proof {
            assert(views(parts@) == seq![self.0.text(), self.1.text()]);
        }
        render_sequence(&parts)
    }
}

impl<A: Serialize, B: Serialize, C: Serialize> Serialize for (A, B, C) {
    open spec fn text(&self) -> Seq<char> {
        sequence_text(seq![self.0.text(), self.1.text(), self.2.text()])
    }

    fn serialize(&self) -> (s: String) {
        let mut parts: Vec<String> = Vec::new();
        parts.push(self.0.serialize());
        parts.push(self.1.serialize());
        parts.push(self.2.serialize());
        proof {
            assert(views(parts@) == seq![self.0.text(), self.1.text(), self.2.text()]);
        }
        render_sequence(&parts)
    }
}

impl<A: Serialize, B: Serialize, C: Serialize, D: Serialize> Serialize for (A, B, C, D) {
    open spec fn text(&self) -> Seq<char> {
        sequence_text(seq![self.0.text(), self.1.text(), self.2.text(), self.3.text()])
    }

    fn serialize(&self) -> (s: String) {
        let mut parts: Vec<String> = Vec::new();
        parts.push(self.0.serialize());
        parts.push(self.1.serialize());
        parts.push(self.2.serialize());
        parts.push(self.3.serialize());
        proof {
            assert(views(parts@) == seq![
                self.0.text(),
                self.1.text(),
                self.2.text(),
                self.3.text(),
            ]);
        }
        render_sequence(&parts)
    }
}

impl<
    A: Serialize,
    B: Serialize,
    C: Serialize,
    D: Serialize,
    E: Serialize,
> Serialize for (A, B, C, D, E) {
    open spec fn text(&self) -> Seq<char> {
        sequence_text(seq![
            self.0.text(),
            self.1.text(),
            self.2.text(),
            self.3.text(),
            self.4.text(),
        ])
    }

    fn serialize(&self) -> (s: String) {
        let mut parts: Vec<String> = Vec::new();
        parts.push(self.0.serialize());
        parts.push(self.1.serialize());
        parts.push(self.2.serialize());
        parts.push(self.3.serialize());
        parts.push(self.4.serialize());
        proof {
            assert(views(parts@) == seq![
                self.0.text(),
                self.1.text(),
                self.2.text(),
                self.3.text(),
                self.4.text(),
            ]);
        }
        render_sequence(&parts)
    }
}

impl<
    A: Serialize,
    B: Serialize,
    C: Serialize,
    D: Serialize,
    E: Serialize,
    F: Serialize,
> Serialize for (A, B, C, D, E, F) {
    open spec fn text(&self) -> Seq<char> {
        sequence_text(seq![
            self.0.text(),
            self.1.text(),
            self.2.text(),
            self.3.text(),
            self.4.text(),
            self.5.text(),
        ])
    }

    fn serialize(&self) -> (s: String) {
        let mut parts: Vec<String> = Vec::new();
        parts.push(self.0.serialize());
        parts.push(self.1.serialize());
        parts.push(self.2.serialize());
        parts.push(self.3.serialize());
        parts.push(self.4.serialize());
        parts.push(self.5.serialize());
        proof {
            assert(views(parts@) == seq![
                self.0.text(),
                self.1.text(),
                self.2.text(),
                self.3.text(),
                self.4.text(),
                self.5.text(),
            ]);
        }
        render_sequence(&parts)
    }
}

impl<
    A: Serialize,
    B: Serialize,
    C: Serialize,
    D: Serialize,
    E: Serialize,
    F: Serialize,
    G: Serialize,
> Serialize for (A, B, C, D, E, F, G) {
    open spec fn text(&self) -> Seq<char> {
        sequence_text(seq![
            self.0.text(),
            self.1.text(),
            self.2.text(),
            self.3.text(),
            self.4.text(),
            self.5.text(),
            self.6.text(),
        ])
    }

    fn serialize(&self) -> (s: String) {
        let mut parts: Vec<String> = Vec::new();
        parts.push(self.0.serialize());
        parts.push(self.1.serialize());
        parts.push(self.2.serialize());
        parts.push(self.3.serialize());
        parts.push(self.4.serialize());
        parts.push(self.5.serialize());
        parts.push(self.6.serialize());
        proof {
            assert(views(parts@) == seq![
                self.0.text(),
                self.1.text(),
                self.2.text(),
                self.3.text(),
                self.4.text(),
                self.5.text(),
                self.6.text(),
            ]);
        }
        render_sequence(&parts)
    }
}

impl<
    A: Serialize,
    B: Serialize,
    C: Serialize,
    D: Serialize,
    E: Serialize,
    F: Serialize,
    G: Serialize,
    H: Serialize,
> Serialize for (A, B, C, D, E, F, G, H) {
    open spec fn text(&self) -> Seq<char> {
        sequence_text(seq![
            self.0.text(),
            self.1.text(),
            self.2.text(),
            self.3.text(),
            self.4.text(),
            self.5.text(),
            self.6.text(),
            self.7.text(),
        ])
    }

    fn serialize(&self) -> (s: String) {
        let mut parts: Vec<String> = Vec::new();
        parts.push(self.0.serialize());
        parts.push(self.1.serialize());
        parts.push(self.2.serialize());
        parts.push(self.3.serialize());
        parts.push(self.4.serialize());
        parts.push(self.5.serialize());
        parts.push(self.6.serialize());
        parts.push(self.7.serialize());
        proof {
            assert(views(parts@) == seq![
                self.0.text(),
                self.1.text(),
                self.2.text(),
                self.3.text(),
                self.4.text(),
                self.5.text(),
                self.6.text(),
                self.7.text(),
            ]);
        }
        render_sequence(&parts)
    }
}

impl<
    A: Serialize,
    B: Serialize,
    C: Serialize,
    D: Serialize,
    E: Serialize,
    F: Serialize,
    G: Serialize,
    H: Serialize,
    I: Serialize,
> Serialize for (A, B, C, D, E, F, G, H, I) {
    open spec fn text(&self) -> Seq<char> {
        sequence_text(seq![
            self.0.text(),
            self.1.text(),
            self.2.text(),
            self.3.text(),
            self.4.text(),
            self.5.text(),
            self.6.text(),
            self.7.text(),
            self.8.text(),
        ])
    }

    fn serialize(&self) -> (s: String) {
        let mut parts: Vec<String> = Vec::new();
        parts.push(self.0.serialize());
        parts.push(self.1.serialize());
        parts.push(self.2.serialize());
        parts.push(self.3.serialize());
        parts.push(self.4.serialize());
        parts.push(self.5.serialize());
        parts.push(self.6.serialize());
        parts.push(self.7.serialize());
        parts.push(self.8.serialize());
        proof {
            assert(views(parts@) == seq![
                self.0.text(),
                self.1.text(),
                self.2.text(),
                self.3.text(),
                self.4.text(),
                self.5.text(),
                self.6.text(),
                self.7.text(),
                self.8.text(),
            ]);
        }
        render_sequence(&parts)
    }
}

impl<
    A: Serialize,
    B: Serialize,
    C: Serialize,
    D: Serialize,
    E: Serialize,
    F: Serialize,
    G: Serialize,
    H: Serialize,
    I: Serialize,
    J: Serialize,
> Serialize for (A, B, C, D, E, F, G, H, I, J) {
    open spec fn text(&self) -> Seq<char> {
        sequence_text(seq![
            self.0.text(),
            self.1.text(),
            self.2.text(),
            self.3.text(),
            self.4.text(),
            self.5.text(),
            self.6.text(),
            self.7.text(),
            self.8.text(),
            self.9.text(),
        ])
    }

    fn serialize(&self) -> (s: String) {
        let mut parts: Vec<String> = Vec::new();
        parts.push(self.0.serialize());
        parts.push(self.1.serialize());
        parts.push(self.2.serialize());
        parts.push(self.3.serialize());
        parts.push(self.4.serialize());
        parts.push(self.5.serialize());
        parts.push(self.6.serialize());
        parts.push(self.7.serialize());
        parts.push(self.8.serialize());
        parts.push(self.9.serialize());
        proof {
            assert(views(parts@) == seq![
                self.0.text(),
                self.1.text(),
                self.2.text(),
                self.3.text(),
                self.4.text(),
                self.5.text(),
                self.6.text(),
                self.7.text(),
                self.8.text(),
                self.9.text(),
            ]);
        }
        render_sequence(&parts)
    }
}

impl<
    A: Serialize,
    B: Serialize,
    C: Serialize,
    D: Serialize,
    E: Serialize,
    F: Serialize,
    G: Serialize,
    H: Serialize,
    I: Serialize,
    J: Serialize,
    K: Serialize,
> Serialize for (A, B, C, D, E, F, G, H, I, J, K) {
    open spec fn text(&self) -> Seq<char> {
        sequence_text(seq![
            self.0.text(),
            self.1.text(),
            self.2.text(),
            self.3.text(),
            self.4.text(),
            self.5.text(),
            self.6.text(),
            self.7.text(),
            self.8.text(),
            self.9.text(),
            self.10.text(),
        ])
    }

    fn serialize(&self) -> (s: String) {
        let mut parts: Vec<String> = Vec::new();
        parts.push(self.0.serialize());
        parts.push(self.1.serialize());
        parts.push(self.2.serialize());
        parts.push(self.3.serialize());
        parts.push(self.4.serialize());
        parts.push(self.5.serialize());
        parts.push(self.6.serialize());
        parts.push(self.7.serialize());
        parts.push(self.8.serialize());
        parts.push(self.9.serialize());
        parts.push(self.10.serialize());
        proof {
            assert(views(parts@) == seq![
                self.0.text(),
                self.1.text(),
                self.2.text(),
                self.3.text(),
                self.4.text(),
                self.5.text(),
                self.6.text(),
                self.7.text(),
                self.8.text(),
                self.9.text(),
                self.10.text(),
            ]);
        }
        render_sequence(&parts)
    }
}

impl<
    A: Serialize,
    B: Serialize,
    C: Serialize,
    D: Serialize,
    E: Serialize,
    F: Serialize,
    G: Serialize,
    H: Serialize,
    I: Serialize,
    J: Serialize,
    K: Serialize,
    L: Serialize,
> Serialize for (A, B, C, D, E, F, G, H, I, J, K, L) {
    open spec fn text(&self) -> Seq<char> {
        sequence_text(seq![
            self.0.text(),
            self.1.text(),
            self.2.text(),
            self.3.text(),
            self.4.text(),
            self.5.text(),
            self.6.text(),
            self.7.text(),
            self.8.text(),
            self.9.text(),
            self.10.text(),
            self.11.text(),
        ])
    }

    fn serialize(&self) -> (s: String) {
        let mut parts: Vec<String> = Vec::new();
        parts.push(self.0.serialize());
        parts.push(self.1.serialize());
        parts.push(self.2.serialize());
        parts.push(self.3.serialize());
        parts.push(self.4.serialize());
        parts.push(self.5.serialize());
        parts.push(self.6.serialize());
        parts.push(self.7.serialize());
        parts.push(self.8.serialize());
        parts.push(self.9.serialize());
        parts.push(self.10.serialize());
        parts.push(self.11.serialize());
        proof {
            assert(views(parts@) == seq![
                self.0.text(),
                self.1.text(),
                self.2.text(),
                self.3.text(),
                self.4.text(),
                self.5.text(),
                self.6.text(),
                self.7.text(),
                self.8.text(),
                self.9.text(),
                self.10.text(),
                self.11.text(),
            ]);
        }
        render_sequence(&parts)
    }
}

impl<
    A: Serialize,
    B: Serialize,
    C: Serialize,
    D: Serialize,
    E: Serialize,
    F: Serialize,
    G: Serialize,
    H: Serialize,
    I: Serialize,
    J: Serialize,
    K: Serialize,
    L: Serialize,
    M: Serialize,
> Serialize for (A, B, C, D, E, F, G, H, I, J, K, L, M) {
    open spec fn text(&self) -> Seq<char> {
        sequence_text(seq![
            self.0.text(),
            self.1.text(),
            self.2.text(),
            self.3.text(),
            self.4.text(),
            self.5.text(),
            self.6.text(),
            self.7.text(),
            self.8.text(),
            self.9.text(),
            self.10.text(),
            self.11.text(),
            self.12.text(),
        ])
    }

    fn serialize(&self) -> (s: String) {
        let mut parts: Vec<String> = Vec::new();
        parts.push(self.0.serialize());
        parts.push(self.1.serialize());
        parts.push(self.2.serialize());
        parts.push(self.3.serialize());
        parts.push(self.4.serialize());
        parts.push(self.5.serialize());
        parts.push(self.6.serialize());
        parts.push(self.7.serialize());
        parts.push(self.8.serialize());
        parts.push(self.9.serialize());
        parts.push(self.10.serialize());
        parts.push(self.11.serialize());
        parts.push(self.12.serialize());
        proof {
            assert(views(parts@) == seq![
                self.0.text(),
                self.1.text(),
                self.2.text(),
                self.3.text(),
                self.4.text(),
                self.5.text(),
                self.6.text(),
                self.7.text(),
                self.8.text(),
                self.9.text(),
                self.10.text(),
                self.11.text(),
                self.12.text(),
            ]);
        }
        render_sequence(&parts)
    }
}

impl<
    A: Serialize,
    B: Serialize,
    C: Serialize,
    D: Serialize,
    E: Serialize,
    F: Serialize,
    G: Serialize,
    H: Serialize,
    I: Serialize,
    J: Serialize,
    K: Serialize,
    L: Serialize,
    M: Serialize,
    N: Serialize,
> Serialize for (A, B, C, D, E, F, G, H, I, J, K, L, M, N) {
    open spec fn text(&self) -> Seq<char> {
        sequence_text(seq![
            self.0.text(),
            self.1.text(),
            self.2.text(),
            self.3.text(),
            self.4.text(),
            self.5.text(),
            self.6.text(),
            self.7.text(),
            self.8.text(),
            self.9.text(),
            self.10.text(),
            self.11.text(),
            self.12.text(),
            self.13.text(),
        ])
    }

    fn serialize(&self) -> (s: String) {
        let mut parts: Vec<String> = Vec::new();
        parts.push(self.0.serialize());
        parts.push(self.1.serialize());
        parts.push(self.2.serialize());
        parts.push(self.3.serialize());
        parts.push(self.4.serialize());
        parts.push(self.5.serialize());
        parts.push(self.6.serialize());
        parts.push(self.7.serialize());
        parts.push(self.8.serialize());
        parts.push(self.9.serialize());
        parts.push(self.10.serialize());
        parts.push(self.11.serialize());
        parts.push(self.12.serialize());
        parts.push(self.13.serialize());
        proof {
            assert(views(parts@) == seq![
                self.0.text(),
                self.1.text(),
                self.2.text(),
                self.3.text(),
                self.4.text(),
                self.5.text(),
                self.6.text(),
                self.7.text(),
                self.8.text(),
                self.9.text(),
                self.10.text(),
                self.11.text(),
                self.12.text(),
                self.13.text(),
            ]);
        }
        render_sequence(&parts)
    }
}

impl<
    A: Serialize,
    B: Serialize,
    C: Serialize,
    D: Serialize,
    E: Serialize,
    F: Serialize,
    G: Serialize,
    H: Serialize,
    I: Serialize,
    J: Serialize,
    K: Serialize,
    L: Serialize,
    M: Serialize,
    N: Serialize,
    O: Serialize,
> Serialize for (A, B, C, D, E, F, G, H, I, J, K, L, M, N, O) {
    open spec fn text(&self) -> Seq<char> {
        sequence_text(seq![
            self.0.text(),
            self.1.text(),
            self.2.text(),
            self.3.text(),
            self.4.text(),
            self.5.text(),
            self.6.text(),
            self.7.text(),
            self.8.text(),
            self.9.text(),
            self.10.text(),
            self.11.text(),
            self.12.text(),
            self.13.text(),
            self.14.text(),
        ])
    }

    fn serialize(&self) -> (s: String) {
        let mut parts: Vec<String> = Vec::new();
        parts.push(self.0.serialize());
        parts.push(self.1.serialize());
        parts.push(self.2.serialize());
        parts.push(self.3.serialize());
        parts.push(self.4.serialize());
        parts.push(self.5.serialize());
        parts.push(self.6.serialize());
        parts.push(self.7.serialize());
        parts.push(self.8.serialize());
        parts.push(self.9.serialize());
        parts.push(self.10.serialize());
        parts.push(self.11.serialize());
        parts.push(self.12.serialize());
        parts.push(self.13.serialize());
        parts.push(self.14.serialize());
        proof {
            assert(views(parts@) == seq![
                self.0.text(),
                self.1.text(),
                self.2.text(),
                self.3.text(),
                self.4.text(),
                self.5.text(),
                self.6.text(),
                self.7.text(),
                self.8.text(),
                self.9.text(),
                self.10.text(),
                self.11.text(),
                self.12.text(),
                self.13.text(),
                self.14.text(),
            ]);
        }
        render_sequence(&parts)
    }
}

impl<
    A: Serialize,
    B: Serialize,
    C: Serialize,
    D: Serialize,
    E: Serialize,
    F: Serialize,
    G: Serialize,
    H: Serialize,
    I: Serialize,
    J: Serialize,
    K: Serialize,
    L: Serialize,
    M: Serialize,
    N: Serialize,
    O: Serialize,
    P: Serialize,
> Serialize for (A, B, C, D, E, F, G, H, I, J, K, L, M, N, O, P) {
    open spec fn text(&self) -> Seq<char> {
        sequence_text(seq![
            self.0.text(),
            self.1.text(),
            self.2.text(),
            self.3.text(),
            self.4.text(),
            self.5.text(),
            self.6.text(),
            self.7.text(),
            self.8.text(),
            self.9.text(),
            self.10.text(),
            self.11.text(),
            self.12.text(),
            self.13.text(),
            self.14.text(),
            self.15.text(),
        ])
    }

    fn serialize(&self) -> (s: String) {
        let mut parts: Vec<String> = Vec::new();
        parts.push(self.0.serialize());
        parts.push(self.1.serialize());
        parts.push(self.2.serialize());
        parts.push(self.3.serialize());
        parts.push(self.4.serialize());
        parts.push(self.5.serialize());
        parts.push(self.6.serialize());
        parts.push(self.7.serialize());
        parts.push(self.8.serialize());
        parts.push(self.9.serialize());
        parts.push(self.10.serialize());
        parts.push(self.11.serialize());
        parts.push(self.12.serialize());
        parts.push(self.13.serialize());
        parts.push(self.14.serialize());
        parts.push(self.15.serialize());
        proof {
            assert(views(parts@) == seq![
                self.0.text(),
                self.1.text(),
                self.2.text(),
                self.3.text(),
                self.4.text(),
                self.5.text(),
                self.6.text(),
                self.7.text(),
                self.8.text(),
                self.9.text(),
                self.10.text(),
                self.11.text(),
                self.12.text(),
                self.13.text(),
                self.14.text(),
                self.15.text(),
            ]);
        }
        render_sequence(&parts)
    }
}

impl<
    A: Serialize,
    B: Serialize,
    C: Serialize,
    D: Serialize,
    E: Serialize,
    F: Serialize,
    G: Serialize,
    H: Serialize,
    I: Serialize,
    J: Serialize,
    K: Serialize,
    L: Serialize,
    M: Serialize,
    N: Serialize,
    O: Serialize,
    P: Serialize,
    Q: Serialize,
> Serialize for (A, B, C, D, E, F, G, H, I, J, K, L, M, N, O, P, Q) {
    open spec fn text(&self) -> Seq<char> {
        sequence_text(seq![
            self.0.text(),
            self.1.text(),
            self.2.text(),
            self.3.text(),
            self.4.text(),
            self.5.text(),
            self.6.text(),
            self.7.text(),
            self.8.text(),
            self.9.text(),
            self.10.text(),
            self.11.text(),
            self.12.text(),
            self.13.text(),
            self.14.text(),
            self.15.text(),
            self.16.text(),
        ])
    }

    fn serialize(&self) -> (s: String) {
        let mut parts: Vec<String> = Vec::new();
        parts.push(self.0.serialize());
        parts.push(self.1.serialize());
        parts.push(self.2.serialize());
        parts.push(self.3.serialize());
        parts.push(self.4.serialize());
        parts.push(self.5.serialize());
        parts.push(self.6.serialize());
        parts.push(self.7.serialize());
        parts.push(self.8.serialize());
        parts.push(self.9.serialize());
        parts.push(self.10.serialize());
        parts.push(self.11.serialize());
        parts.push(self.12.serialize());
        parts.push(self.13.serialize());
        parts.push(self.14.serialize());
        parts.push(self.15.serialize());
        parts.push(self.16.serialize());
        proof {
            assert(views(parts@) == seq![
                self.0.text(),
                self.1.text(),
                self.2.text(),
                self.3.text(),
                self.4.text(),
                self.5.text(),
                self.6.text(),
                self.7.text(),
                self.8.text(),
                self.9.text(),
                self.10.text(),
                self.11.text(),
                self.12.text(),
                self.13.text(),
                self.14.text(),
                self.15.text(),
                self.16.text(),
            ]);
        }
        render_sequence(&parts)
    }
}

impl<
    A: Serialize,
    B: Serialize,
    C: Serialize,
    D: Serialize,
    E: Serialize,
    F: Serialize,
    G: Serialize,
    H: Serialize,
    I: Serialize,
    J: Serialize,
    K: Serialize,
    L: Serialize,
    M: Serialize,
    N: Serialize,
    O: Serialize,
    P: Serialize,
    Q: Serialize,
    R: Serialize,
> Serialize for (A, B, C, D, E, F, G, H, I, J, K, L, M, N, O, P, Q, R) {
    open spec fn text(&self) -> Seq<char> {
        sequence_text(seq![
            self.0.text(),
            self.1.text(),
            self.2.text(),
            self.3.text(),
            self.4.text(),
            self.5.text(),
            self.6.text(),
            self.7.text(),
            self.8.text(),
            self.9.text(),
            self.10.text(),
            self.11.text(),
            self.12.text(),
            self.13.text(),
            self.14.text(),
            self.15.text(),
            self.16.text(),
            self.17.text(),
        ])
    }

    fn serialize(&self) -> (s: String) {
        let mut parts: Vec<String> = Vec::new();
        parts.push(self.0.serialize());
        parts.push(self.1.serialize());
        parts.push(self.2.serialize());
        parts.push(self.3.serialize());
        parts.push(self.4.serialize());
        parts.push(self.5.serialize());
        parts.push(self.6.serialize());
        parts.push(self.7.serialize());
        parts.push(self.8.serialize());
        parts.push(self.9.serialize());
        parts.push(self.10.serialize());
        parts.push(self.11.serialize());
        parts.push(self.12.serialize());
        parts.push(self.13.serialize());
        parts.push(self.14.serialize());
        parts.push(self.15.serialize());
        parts.push(self.16.serialize());
        parts.push(self.17.serialize());
        proof {
            assert(views(parts@) == seq![
                self.0.text(),
                self.1.text(),
                self.2.text(),
                self.3.text(),
                self.4.text(),
                self.5.text(),
                self.6.text(),
                self.7.text(),
                self.8.text(),
                self.9.text(),
                self.10.text(),
                self.11.text(),
                self.12.text(),
                self.13.text(),
                self.14.text(),
                self.15.text(),
                self.16.text(),
                self.17.text(),
            ]);
        }
        render_sequence(&parts)
    }
}

impl<
    A: Serialize,
    B: Serialize,
    C: Serialize,
    D: Serialize,
    E: Serialize,
    F: Serialize,
    G: Serialize,
    H: Serialize,
    I: Serialize,
    J: Serialize,
    K: Serialize,
    L: Serialize,
    M: Serialize,
    N: Serialize,
    O: Serialize,
    P: Serialize,
    Q: Serialize,
    R: Serialize,
    S: Serialize,
> Serialize for (A, B, C, D, E, F, G, H, I, J, K, L, M, N, O, P, Q, R, S) {
    open spec fn text(&self) -> Seq<char> {
        sequence_text(seq![
            self.0.text(),
            self.1.text(),
            self.2.text(),
            self.3.text(),
            self.4.text(),
            self.5.text(),
            self.6.text(),
            self.7.text(),
            self.8.text(),
            self.9.text(),
            self.10.text(),
            self.11.text(),
            self.12.text(),
            self.13.text(),
            self.14.text(),
            self.15.text(),
            self.16.text(),
            self.17.text(),
            self.18.text(),
        ])
    }

    fn serialize(&self) -> (s: String) {
        let mut parts: Vec<String> = Vec::new();
        parts.push(self.0.serialize());
        parts.push(self.1.serialize());
        parts.push(self.2.serialize());
        parts.push(self.3.serialize());
        parts.push(self.4.serialize());
        parts.push(self.5.serialize());
        parts.push(self.6.serialize());
        parts.push(self.7.serialize());
        parts.push(self.8.serialize());
        parts.push(self.9.serialize());
        parts.push(self.10.serialize());
        parts.push(self.11.serialize());
        parts.push(self.12.serialize());
        parts.push(self.13.serialize());
        parts.push(self.14.serialize());
        parts.push(self.15.serialize());
        parts.push(self.16.serialize());
        parts.push(self.17.serialize());
        parts.push(self.18.serialize());
        proof {
            assert(views(parts@) == seq![
                self.0.text(),
                self.1.text(),
                self.2.text(),
                self.3.text(),
                self.4.text(),
                self.5.text(),
                self.6.text(),
                self.7.text(),
                self.8.text(),
                self.9.text(),
                self.10.text(),
                self.11.text(),
                self.12.text(),
                self.13.text(),
                self.14.text(),
                self.15.text(),
                self.16.text(),
                self.17.text(),
                self.18.text(),
            ]);
        }
        render_sequence(&parts)
    }
}

impl<
    A: Serialize,
    B: Serialize,
    C: Serialize,
    D: Serialize,
    E: Serialize,
    F: Serialize,
    G: Serialize,
    H: Serialize,
    I: Serialize,
    J: Serialize,
    K: Serialize,
    L: Serialize,
    M: Serialize,
    N: Serialize,
    O: Serialize,
    P: Serialize,
    Q: Serialize,
    R: Serialize,
    S: Serialize,
    T: Serialize,
> Serialize for (A, B, C, D, E, F, G, H, I, J, K, L, M, N, O, P, Q, R, S, T) {
    open spec fn text(&self) -> Seq<char> {
        sequence_text(seq![
            self.0.text(),
            self.1.text(),
            self.2.text(),
            self.3.text(),
            self.4.text(),
            self.5.text(),
            self.6.text(),
            self.7.text(),
            self.8.text(),
            self.9.text(),
            self.10.text(),
            self.11.text(),
            self.12.text(),
            self.13.text(),
            self.14.text(),
            self.15.text(),
            self.16.text(),
            self.17.text(),
            self.18.text(),
            self.19.text(),
        ])
    }

    fn serialize(&self) -> (s: String) {
        let mut parts: Vec<String> = Vec::new();
        parts.push(self.0.serialize());
        parts.push(self.1.serialize());
        parts.push(self.2.serialize());
        parts.push(self.3.serialize());
        parts.push(self.4.serialize());
        parts.push(self.5.serialize());
        parts.push(self.6.serialize());
        parts.push(self.7.serialize());
        parts.push(self.8.serialize());
        parts.push(self.9.serialize());
        parts.push(self.10.serialize());
        parts.push(self.11.serialize());
        parts.push(self.12.serialize());
        parts.push(self.13.serialize());
        parts.push(self.14.serialize());
        parts.push(self.15.serialize());
        parts.push(self.16.serialize());
        parts.push(self.17.serialize());
        parts.push(self.18.serialize());
        parts.push(self.19.serialize());
        proof {
            assert(views(parts@) == seq![
                self.0.text(),
                self.1.text(),
                self.2.text(),
                self.3.text(),
                self.4.text(),
                self.5.text(),
                self.6.text(),
                self.7.text(),
                self.8.text(),
                self.9.text(),
                self.10.text(),
                self.11.text(),
                self.12.text(),
                self.13.text(),
                self.14.text(),
                self.15.text(),
                self.16.text(),
                self.17.text(),
                self.18.text(),
                self.19.text(),
            ]);
        }
        render_sequence(&parts)
    }
}

impl<
    A: Serialize,
    B: Serialize,
    C: Serialize,
    D: Serialize,
    E: Serialize,
    F: Serialize,
    G: Serialize,
    H: Serialize,
    I: Serialize,
    J: Serialize,
    K: Serialize,
    L: Serialize,
    M: Serialize,
    N: Serialize,
    O: Serialize,
    P: Serialize,
    Q: Serialize,
    R: Serialize,
    S: Serialize,
    T: Serialize,
    U: Serialize,
> Serialize for (A, B, C, D, E, F, G, H, I, J, K, L, M, N, O, P, Q, R, S, T, U) {
    open spec fn text(&self) -> Seq<char> {
        sequence_text(seq![
            self.0.text(),
            self.1.text(),
            self.2.text(),
            self.3.text(),
            self.4.text(),
            self.5.text(),
            self.6.text(),
            self.7.text(),
            self.8.text(),
            self.9.text(),
            self.10.text(),
            self.11.text(),
            self.12.text(),
            self.13.text(),
            self.14.text(),
            self.15.text(),
            self.16.text(),
            self.17.text(),
            self.18.text(),
            self.19.text(),
            self.20.text(),
        ])
    }

    fn serialize(&self) -> (s: String) {
        let mut parts: Vec<String> = Vec::new();
        parts.push(self.0.serialize());
        parts.push(self.1.serialize());
        parts.push(self.2.serialize());
        parts.push(self.3.serialize());
        parts.push(self.4.serialize());
        parts.push(self.5.serialize());
        parts.push(self.6.serialize());
        parts.push(self.7.serialize());
        parts.push(self.8.serialize());
        parts.push(self.9.serialize());
        parts.push(self.10.serialize());
        parts.push(self.11.serialize());
        parts.push(self.12.serialize());
        parts.push(self.13.serialize());
        parts.push(self.14.serialize());
        parts.push(self.15.serialize());
        parts.push(self.16.serialize());
        parts.push(self.17.serialize());
        parts.push(self.18.serialize());
        parts.push(self.19.serialize());
        parts.push(self.20.serialize());
        proof {
            assert(views(parts@) == seq![
                self.0.text(),
                self.1.text(),
                self.2.text(),
                self.3.text(),
                self.4.text(),
                self.5.text(),
                self.6.text(),
                self.7.text(),
                self.8.text(),
                self.9.text(),
                self.10.text(),
                self.11.text(),
                self.12.text(),
                self.13.text(),
                self.14.text(),
                self.15.text(),
                self.16.text(),
                self.17.text(),
                self.18.text(),
                self.19.text(),
                self.20.text(),
            ]);
        }
        render_sequence(&parts)
    }
}

impl<
    A: Serialize,
    B: Serialize,
    C: Serialize,
    D: Serialize,
    E: Serialize,
    F: Serialize,
    G: Serialize,
    H: Serialize,
    I: Serialize,
    J: Serialize,
    K: Serialize,
    L: Serialize,
    M: Serialize,
    N: Serialize,
    O: Serialize,
    P: Serialize,
    Q: Serialize,
    R: Serialize,
    S: Serialize,
    T: Serialize,
    U: Serialize,
    V: Serialize,
> Serialize for (A, B, C, D, E, F, G, H, I, J, K, L, M, N, O, P, Q, R, S, T, U, V) {
    open spec fn text(&self) -> Seq<char> {
        sequence_text(seq![
            self.0.text(),
            self.1.text(),
            self.2.text(),
            self.3.text(),
            self.4.text(),
            self.5.text(),
            self.6.text(),
            self.7.text(),
            self.8.text(),
            self.9.text(),
            self.10.text(),
            self.11.text(),
            self.12.text(),
            self.13.text(),
            self.14.text(),
            self.15.text(),
            self.16.text(),
            self.17.text(),
            self.18.text(),
            self.19.text(),
            self.20.text(),
            self.21.text(),
        ])
    }

    fn serialize(&self) -> (s: String) {
        let mut parts: Vec<String> = Vec::new();
        parts.push(self.0.serialize());
        parts.push(self.1.serialize());
        parts.push(self.2.serialize());
        parts.push(self.3.serialize());
        parts.push(self.4.serialize());
        parts.push(self.5.serialize());
        parts.push(self.6.serialize());
        parts.push(self.7.serialize());
        parts.push(self.8.serialize());
        parts.push(self.9.serialize());
        parts.push(self.10.serialize());
        parts.push(self.11.serialize());
        parts.push(self.12.serialize());
        parts.push(self.13.serialize());
        parts.push(self.14.serialize());
        parts.push(self.15.serialize());
        parts.push(self.16.serialize());
        parts.push(self.17.serialize());
        parts.push(self.18.serialize());
        parts.push(self.19.serialize());
        parts.push(self.20.serialize());
        parts.push(self.21.serialize());
        proof {
            assert(views(parts@) == seq![
                self.0.text(),
                self.1.text(),
                self.2.text(),
                self.3.text(),
                self.4.text(),
                self.5.text(),
                self.6.text(),
                self.7.text(),
                self.8.text(),
                self.9.text(),
                self.10.text(),
                self.11.text(),
                self.12.text(),
                self.13.text(),
                self.14.text(),
                self.15.text(),
                self.16.text(),
                self.17.text(),
                self.18.text(),
                self.19.text(),
                self.20.text(),
                self.21.text(),
            ]);
        }
        render_sequence(&parts)
    }
}

impl<
    A: Serialize,
    B: Serialize,
    C: Serialize,
    D: Serialize,
    E: Serialize,
    F: Serialize,
    G: Serialize,
    H: Serialize,
    I: Serialize,
    J: Serialize,
    K: Serialize,
    L: Serialize,
    M: Serialize,
    N: Serialize,
    O: Serialize,
    P: Serialize,
    Q: Serialize,
    R: Serialize,
    S: Serialize,
    T: Serialize,
    U: Serialize,
    V: Serialize,
    W: Serialize,
> Serialize for (A, B, C, D, E, F, G, H, I, J, K, L, M, N, O, P, Q, R, S, T, U, V, W) {
    open spec fn text(&self) -> Seq<char> {
        sequence_text(seq![
            self.0.text(),
            self.1.text(),
            self.2.text(),
            self.3.text(),
            self.4.text(),
            self.5.text(),
            self.6.text(),
            self.7.text(),
            self.8.text(),
            self.9.text(),
            self.10.text(),
            self.11.text(),
            self.12.text(),
            self.13.text(),
            self.14.text(),
            self.15.text(),
            self.16.text(),
            self.17.text(),
            self.18.text(),
            self.19.text(),
            self.20.text(),
            self.21.text(),
            self.22.text(),
        ])
    }

    fn serialize(&self) -> (s: String) {
        let mut parts: Vec<String> = Vec::new();
        parts.push(self.0.serialize());
        parts.push(self.1.serialize());
        parts.push(self.2.serialize());
        parts.push(self.3.serialize());
        parts.push(self.4.serialize());
        parts.push(self.5.serialize());
        parts.push(self.6.serialize());
        parts.push(self.7.serialize());
        parts.push(self.8.serialize());
        parts.push(self.9.serialize());
        parts.push(self.10.serialize());
        parts.push(self.11.serialize());
        parts.push(self.12.serialize());
        parts.push(self.13.serialize());
        parts.push(self.14.serialize());
        parts.push(self.15.serialize());
        parts.push(self.16.serialize());
        parts.push(self.17.serialize());
        parts.push(self.18.serialize());
        parts.push(self.19.serialize());
        parts.push(self.20.serialize());
        parts.push(self.21.serialize());
        parts.push(self.22.serialize());
        proof {
            assert(views(parts@) == seq![
                self.0.text(),
                self.1.text(),
                self.2.text(),
                self.3.text(),
                self.4.text(),
                self.5.text(),
                self.6.text(),
                self.7.text(),
                self.8.text(),
                self.9.text(),
                self.10.text(),
                self.11.text(),
                self.12.text(),
                self.13.text(),
                self.14.text(),
                self.15.text(),
                self.16.text(),
                self.17.text(),
                self.18.text(),
                self.19.text(),
                self.20.text(),
                self.21.text(),
                self.22.text(),
            ]);
        }
        render_sequence(&parts)
    }
}

impl<A: Extract> Extract for (A,) {
    open spec fn refusal(v: Content) -> Option<Failure> {
        match v {
            Content::List(items) => if items.len() != 1 {
                Some(wrong_arity(v, Asked::Tuple(1)))
            } else {
                A::refusal(items[0])
            },
            _ => Some(wrong_variant(v, Asked::Tuple(1))),
        }
    }

    open spec fn reads(&self, v: Content) -> bool {
        &&& v matches Content::List(items)
        &&& items.len() == 1
        &&& self.0.reads(items[0])
    }

    fn extract(v: DeSerialResult) -> (r: Result<(A,), SerialError>) {
        match v {
            DeSerialResult::Vec(mut items) => {
                proof {
                    lemma_view_of_vec(items);
                }
                if items.len() != 1 {
                    let whole = DeSerialResult::Vec(items);
                    return Err(SerialError::wrong_arity(whole, Shape::Tuple(1)));
                }
                let a = A::extract(items.remove(0))?;
                Ok((a,))
            },
            other => Err(SerialError::wrong_variant(other, Shape::Tuple(1))),
        }
    }
}

impl<A: Extract, B: Extract> Extract for (A, B) {
    open spec fn refusal(v: Content) -> Option<Failure> {
        tuple_refusal::<A, (B,)>(v, 2)
    }

    open spec fn reads(&self, v: Content) -> bool {
        tuple_reads(self.0, (self.1,), v, 2)
    }

    fn extract(v: DeSerialResult) -> (r: Result<(A, B), SerialError>) {
        let (a, (b,)) = split_tuple::<A, (B,)>(v, 2)?;
        Ok((a, b))
    }
}

impl<A: Extract, B: Extract, C: Extract> Extract for (A, B, C) {
    open spec fn refusal(v: Content) -> Option<Failure> {
        tuple_refusal::<A, (B, C)>(v, 3)
    }

    open spec fn reads(&self, v: Content) -> bool {
        tuple_reads(self.0, (self.1, self.2), v, 3)
    }

    fn extract(v: DeSerialResult) -> (r: Result<(A, B, C), SerialError>) {
        let (a, (b, c)) = split_tuple::<A, (B, C)>(v, 3)?;
        Ok((a, b, c))
    }
}

impl<A: Extract, B: Extract, C: Extract, D: Extract> Extract for (A, B, C, D) {
    open spec fn refusal(v: Content) -> Option<Failure> {
        tuple_refusal::<A, (B, C, D)>(v, 4)
    }

    open spec fn reads(&self, v: Content) -> bool {
        tuple_reads(self.0, (self.1, self.2, self.3), v, 4)
    }

    fn extract(v: DeSerialResult) -> (r: Result<(A, B, C, D), SerialError>) {
        let (a, (b, c, d)) = split_tuple::<A, (B, C, D)>(v, 4)?;
        Ok((a, b, c, d))
    }
}

impl<A: Extract, B: Extract, C: Extract, D: Extract, E: Extract> Extract for (A, B, C, D, E) {
    open spec fn refusal(v: Content) -> Option<Failure> {
        tuple_refusal::<A, (B, C, D, E)>(v, 5)
    }

    open spec fn reads(&self, v: Content) -> bool {
        tuple_reads(self.0, (self.1, self.2, self.3, self.4), v, 5)
    }

    fn extract(v: DeSerialResult) -> (r: Result<(A, B, C, D, E), SerialError>) {
        let (a, (b, c, d, e)) = split_tuple::<A, (B, C, D, E)>(v, 5)?;
        Ok((a, b, c, d, e))
    }
}

impl<
    A: Extract,
    B: Extract,
    C: Extract,
    D: Extract,
    E: Extract,
    F: Extract,
> Extract for (A, B, C, D, E, F) {
    open spec fn refusal(v: Content) -> Option<Failure> {
        tuple_refusal::<A, (B, C, D, E, F)>(v, 6)
    }

    open spec fn reads(&self, v: Content) -> bool {
        tuple_reads(self.0, (self.1, self.2, self.3, self.4, self.5), v, 6)
    }

    fn extract(v: DeSerialResult) -> (r: Result<(A, B, C, D, E, F), SerialError>) {
        let (a, (b, c, d, e, f)) = split_tuple::<A, (B, C, D, E, F)>(v, 6)?;
        Ok((a, b, c, d, e, f))
    }
}

impl<
    A: Extract,
    B: Extract,
    C: Extract,
    D: Extract,
    E: Extract,
    F: Extract,
    G: Extract,
> Extract for (A, B, C, D, E, F, G) {
    open spec fn refusal(v: Content) -> Option<Failure> {
        tuple_refusal::<A, (B, C, D, E, F, G)>(v, 7)
    }

    open spec fn reads(&self, v: Content) -> bool {
        tuple_reads(self.0, (self.1, self.2, self.3, self.4, self.5, self.6), v, 7)
    }

    fn extract(v: DeSerialResult) -> (r: Result<(A, B, C, D, E, F, G), SerialError>) {
        let (a, (b, c, d, e, f, g)) = split_tuple::<A, (B, C, D, E, F, G)>(v, 7)?;
        Ok((a, b, c, d, e, f, g))
    }
}

impl<
    A: Extract,
    B: Extract,
    C: Extract,
    D: Extract,
    E: Extract,
    F: Extract,
    G: Extract,
    H: Extract,
> Extract for (A, B, C, D, E, F, G, H) {
    open spec fn refusal(v: Content) -> Option<Failure> {
        tuple_refusal::<A, (B, C, D, E, F, G, H)>(v, 8)
    }

    open spec fn reads(&self, v: Content) -> bool {
        tuple_reads(self.0, (self.1, self.2, self.3, self.4, self.5, self.6, self.7), v, 8)
    }

    fn extract(v: DeSerialResult) -> (r: Result<(A, B, C, D, E, F, G, H), SerialError>) {
        let (a, (b, c, d, e, f, g, h)) = split_tuple::<A, (B, C, D, E, F, G, H)>(v, 8)?;
        Ok((a, b, c, d, e, f, g, h))
    }
}

impl<
    A: Extract,
    B: Extract,
    C: Extract,
    D: Extract,
    E: Extract,
    F: Extract,
    G: Extract,
    H: Extract,
    I: Extract,
> Extract for (A, B, C, D, E, F, G, H, I) {
    open spec fn refusal(v: Content) -> Option<Failure> {
        tuple_refusal::<A, (B, C, D, E, F, G, H, I)>(v, 9)
    }

    open spec fn reads(&self, v: Content) -> bool {
        tuple_reads(self.0, (self.1, self.2, self.3, self.4, self.5, self.6, self.7, self.8), v, 9)
    }

    fn extract(v: DeSerialResult) -> (r: Result<(A, B, C, D, E, F, G, H, I), SerialError>) {
        let (a, (b, c, d, e, f, g, h, i)) = split_tuple::<A, (B, C, D, E, F, G, H, I)>(v, 9)?;
        Ok((a, b, c, d, e, f, g, h, i))
    }
}

impl<
    A: Extract,
    B: Extract,
    C: Extract,
    D: Extract,
    E: Extract,
    F: Extract,
    G: Extract,
    H: Extract,
    I: Extract,
    J: Extract,
> Extract for (A, B, C, D, E, F, G, H, I, J) {
    open spec fn refusal(v: Content) -> Option<Failure> {
        tuple_refusal::<A, (B, C, D, E, F, G, H, I, J)>(v, 10)
    }

    open spec fn reads(&self, v: Content) -> bool {
        tuple_reads(
            self.0,
            (self.1, self.2, self.3, self.4, self.5, self.6, self.7, self.8, self.9),
            v,
            10,
        )
    }

    fn extract(v: DeSerialResult) -> (r: Result<(A, B, C, D, E, F, G, H, I, J), SerialError>) {
        let (
            a,
            (b, c, d, e, f, g, h, i, j),
        ) = split_tuple::<
            A,
            (B, C, D, E, F, G, H, I, J),
        >(v, 10)?;
        Ok((a, b, c, d, e, f, g, h, i, j))
    }
}

impl<
    A: Extract,
    B: Extract,
    C: Extract,
    D: Extract,
    E: Extract,
    F: Extract,
    G: Extract,
    H: Extract,
    I: Extract,
    J: Extract,
    K: Extract,
> Extract for (A, B, C, D, E, F, G, H, I, J, K) {
    open spec fn refusal(v: Content) -> Option<Failure> {
        tuple_refusal::<A, (B, C, D, E, F, G, H, I, J, K)>(v, 11)
    }

    open spec fn reads(&self, v: Content) -> bool {
        tuple_reads(
            self.0,
            (self.1, self.2, self.3, self.4, self.5, self.6, self.7, self.8, self.9, self.10),
            v,
            11,
        )
    }

    fn extract(v: DeSerialResult) -> (r: Result<(A, B, C, D, E, F, G, H, I, J, K), SerialError>) {
        let (
            a,
            (b, c, d, e, f, g, h, i, j, k),
        ) = split_tuple::<
            A,
            (B, C, D, E, F, G, H, I, J, K),
        >(v, 11)?;
        Ok((a, b, c, d, e, f, g, h, i, j, k))
    }
}

impl<
    A: Extract,
    B: Extract,
    C: Extract,
    D: Extract,
    E: Extract,
    F: Extract,
    G: Extract,
    H: Extract,
    I: Extract,
    J: Extract,
    K: Extract,
    L: Extract,
> Extract for (A, B, C, D, E, F, G, H, I, J, K, L) {
    open spec fn refusal(v: Content) -> Option<Failure> {
        tuple_refusal::<A, (B, C, D, E, F, G, H, I, J, K, L)>(v, 12)
    }

    open spec fn reads(&self, v: Content) -> bool {
        tuple_reads(
            self.0,
            (
                self.1,
                self.2,
                self.3,
                self.4,
                self.5,
                self.6,
                self.7,
                self.8,
                self.9,
                self.10,
                self.11,
            ),
            v,
            12,
        )
    }

    fn extract(v: DeSerialResult) -> (r: Result<
        (A, B, C, D, E, F, G, H, I, J, K, L),
        SerialError,
    >) {
        let (
            a,
            (b, c, d, e, f, g, h, i, j, k, l),
        ) = split_tuple::<
            A,
            (B, C, D, E, F, G, H, I, J, K, L),
        >(v, 12)?;
        Ok((a, b, c, d, e, f, g, h, i, j, k, l))
    }
}

impl<
    A: Extract,
    B: Extract,
    C: Extract,
    D: Extract,
    E: Extract,
    F: Extract,
    G: Extract,
    H: Extract,
    I: Extract,
    J: Extract,
    K: Extract,
    L: Extract,
    M: Extract,
> Extract for (A, B, C, D, E, F, G, H, I, J, K, L, M) {
    open spec fn refusal(v: Content) -> Option<Failure> {
        tuple_refusal::<A, (B, C, D, E, F, G, H, I, J, K, L, M)>(v, 13)
    }

    open spec fn reads(&self, v: Content) -> bool {
        tuple_reads(
            self.0,
            (
                self.1,
                self.2,
                self.3,
                self.4,
                self.5,
                self.6,
                self.7,
                self.8,
                self.9,
                self.10,
                self.11,
                self.12,
            ),
            v,
            13,
        )
    }

    fn extract(v: DeSerialResult) -> (r: Result<
        (A, B, C, D, E, F, G, H, I, J, K, L, M),
        SerialError,
    >) {
        let (
            a,
            (b, c, d, e, f, g, h, i, j, k, l, m),
        ) = split_tuple::<
            A,
            (B, C, D, E, F, G, H, I, J, K, L, M),
        >(v, 13)?;
        Ok((a, b, c, d, e, f, g, h, i, j, k, l, m))
    }
}

impl<
    A: Extract,
    B: Extract,
    C: Extract,
    D: Extract,
    E: Extract,
    F: Extract,
    G: Extract,
    H: Extract,
    I: Extract,
    J: Extract,
    K: Extract,
    L: Extract,
    M: Extract,
    N: Extract,
> Extract for (A, B, C, D, E, F, G, H, I, J, K, L, M, N) {
    open spec fn refusal(v: Content) -> Option<Failure> {
        tuple_refusal::<A, (B, C, D, E, F, G, H, I, J, K, L, M, N)>(v, 14)
    }

    open spec fn reads(&self, v: Content) -> bool {
        tuple_reads(
            self.0,
            (
                self.1,
                self.2,
                self.3,
                self.4,
                self.5,
                self.6,
                self.7,
                self.8,
                self.9,
                self.10,
                self.11,
                self.12,
                self.13,
            ),
            v,
            14,
        )
    }

    fn extract(v: DeSerialResult) -> (r: Result<
        (A, B, C, D, E, F, G, H, I, J, K, L, M, N),
        SerialError,
    >) {
        let (
            a,
            (b, c, d, e, f, g, h, i, j, k, l, m, n),
        ) = split_tuple::<
            A,
            (B, C, D, E, F, G, H, I, J, K, L, M, N),
        >(v, 14)?;
        Ok((a, b, c, d, e, f, g, h, i, j, k, l, m, n))
    }
}

impl<
    A: Extract,
    B: Extract,
    C: Extract,
    D: Extract,
    E: Extract,
    F: Extract,
    G: Extract,
    H: Extract,
    I: Extract,
    J: Extract,
    K: Extract,
    L: Extract,
    M: Extract,
    N: Extract,
    O: Extract,
> Extract for (A, B, C, D, E, F, G, H, I, J, K, L, M, N, O) {
    open spec fn refusal(v: Content) -> Option<Failure> {
        tuple_refusal::<A, (B, C, D, E, F, G, H, I, J, K, L, M, N, O)>(v, 15)
    }

    open spec fn reads(&self, v: Content) -> bool {
        tuple_reads(
            self.0,
            (
                self.1,
                self.2,
                self.3,
                self.4,
                self.5,
                self.6,
                self.7,
                self.8,
                self.9,
                self.10,
                self.11,
                self.12,
                self.13,
                self.14,
            ),
            v,
            15,
        )
    }

    fn extract(v: DeSerialResult) -> (r: Result<
        (A, B, C, D, E, F, G, H, I, J, K, L, M, N, O),
        SerialError,
    >) {
        let (
            a,
            (b, c, d, e, f, g, h, i, j, k, l, m, n, o),
        ) = split_tuple::<
            A,
            (B, C, D, E, F, G, H, I, J, K, L, M, N, O),
        >(v, 15)?;
        Ok((a, b, c, d, e, f, g, h, i, j, k, l, m, n, o))
    }
}

impl<
    A: Extract,
    B: Extract,
    C: Extract,
    D: Extract,
    E: Extract,
    F: Extract,
    G: Extract,
    H: Extract,
    I: Extract,
    J: Extract,
    K: Extract,
    L: Extract,
    M: Extract,
    N: Extract,
    O: Extract,
    P: Extract,
> Extract for (A, B, C, D, E, F, G, H, I, J, K, L, M, N, O, P) {
    open spec fn refusal(v: Content) -> Option<Failure> {
        tuple_refusal::<A, (B, C, D, E, F, G, H, I, J, K, L, M, N, O, P)>(v, 16)
    }

    open spec fn reads(&self, v: Content) -> bool {
        tuple_reads(
            self.0,
            (
                self.1,
                self.2,
                self.3,
                self.4,
                self.5,
                self.6,
                self.7,
                self.8,
                self.9,
                self.10,
                self.11,
                self.12,
                self.13,
                self.14,
                self.15,
            ),
            v,
            16,
        )
    }

    fn extract(v: DeSerialResult) -> (r: Result<
        (A, B, C, D, E, F, G, H, I, J, K, L, M, N, O, P),
        SerialError,
    >) {
        let (
            a,
            (b, c, d, e, f, g, h, i, j, k, l, m, n, o, p),
        ) = split_tuple::<
            A,
            (B, C, D, E, F, G, H, I, J, K, L, M, N, O, P),
        >(v, 16)?;
        Ok((a, b, c, d, e, f, g, h, i, j, k, l, m, n, o, p))
    }
}

impl<
    A: Extract,
    B: Extract,
    C: Extract,
    D: Extract,
    E: Extract,
    F: Extract,
    G: Extract,
    H: Extract,
    I: Extract,
    J: Extract,
    K: Extract,
    L: Extract,
    M: Extract,
    N: Extract,
    O: Extract,
    P: Extract,
    Q: Extract,
> Extract for (A, B, C, D, E, F, G, H, I, J, K, L, M, N, O, P, Q) {
    open spec fn refusal(v: Content) -> Option<Failure> {
        tuple_refusal::<A, (B, C, D, E, F, G, H, I, J, K, L, M, N, O, P, Q)>(v, 17)
    }

    open spec fn reads(&self, v: Content) -> bool {
        tuple_reads(
            self.0,
            (
                self.1,
                self.2,
                self.3,
                self.4,
                self.5,
                self.6,
                self.7,
                self.8,
                self.9,
                self.10,
                self.11,
                self.12,
                self.13,
                self.14,
                self.15,
                self.16,
            ),
            v,
            17,
        )
    }

    fn extract(v: DeSerialResult) -> (r: Result<
        (A, B, C, D, E, F, G, H, I, J, K, L, M, N, O, P, Q),
        SerialError,
    >) {
        let (
            a,
            (b, c, d, e, f, g, h, i, j, k, l, m, n, o, p, q),
        ) = split_tuple::<
            A,
            (B, C, D, E, F, G, H, I, J, K, L, M, N, O, P, Q),
        >(v, 17)?;
        Ok((a, b, c, d, e, f, g, h, i, j, k, l, m, n, o, p, q))
    }
}

impl<
    A: Extract,
    B: Extract,
    C: Extract,
    D: Extract,
    E: Extract,
    F: Extract,
    G: Extract,
    H: Extract,
    I: Extract,
    J: Extract,
    K: Extract,
    L: Extract,
    M: Extract,
    N: Extract,
    O: Extract,
    P: Extract,
    Q: Extract,
    R: Extract,
> Extract for (A, B, C, D, E, F, G, H, I, J, K, L, M, N, O, P, Q, R) {
    open spec fn refusal(v: Content) -> Option<Failure> {
        tuple_refusal::<A, (B, C, D, E, F, G, H, I, J, K, L, M, N, O, P, Q, R)>(v, 18)
    }

    open spec fn reads(&self, v: Content) -> bool {
        tuple_reads(
            self.0,
            (
                self.1,
                self.2,
                self.3,
                self.4,
                self.5,
                self.6,
                self.7,
                self.8,
                self.9,
                self.10,
                self.11,
                self.12,
                self.13,
                self.14,
                self.15,
                self.16,
                self.17,
            ),
            v,
            18,
        )
    }

    fn extract(v: DeSerialResult) -> (r: Result<
        (A, B, C, D, E, F, G, H, I, J, K, L, M, N, O, P, Q, R),
        SerialError,
    >) {
        let (
            a,
            (b, c, d, e, f, g, h, i, j, k, l, m, n, o, p, q, r),
        ) = split_tuple::<
            A,
            (B, C, D, E, F, G, H, I, J, K, L, M, N, O, P, Q, R),
        >(v, 18)?;
        Ok((a, b, c, d, e, f, g, h, i, j, k, l, m, n, o, p, q, r))
    }
}

impl<
    A: Extract,
    B: Extract,
    C: Extract,
    D: Extract,
    E: Extract,
    F: Extract,
    G: Extract,
    H: Extract,
    I: Extract,
    J: Extract,
    K: Extract,
    L: Extract,
    M: Extract,
    N: Extract,
    O: Extract,
    P: Extract,
    Q: Extract,
    R: Extract,
    S: Extract,
> Extract for (A, B, C, D, E, F, G, H, I, J, K, L, M, N, O, P, Q, R, S) {
    open spec fn refusal(v: Content) -> Option<Failure> {
        tuple_refusal::<A, (B, C, D, E, F, G, H, I, J, K, L, M, N, O, P, Q, R, S)>(v, 19)
    }

    open spec fn reads(&self, v: Content) -> bool {
        tuple_reads(
            self.0,
            (
                self.1,
                self.2,
                self.3,
                self.4,
                self.5,
                self.6,
                self.7,
                self.8,
                self.9,
                self.10,
                self.11,
                self.12,
                self.13,
                self.14,
                self.15,
                self.16,
                self.17,
                self.18,
            ),
            v,
            19,
        )
    }

    fn extract(v: DeSerialResult) -> (r: Result<
        (A, B, C, D, E, F, G, H, I, J, K, L, M, N, O, P, Q, R, S),
        SerialError,
    >) {
        let (
            a,
            (b, c, d, e, f, g, h, i, j, k, l, m, n, o, p, q, r, s),
        ) = split_tuple::<
            A,
            (B, C, D, E, F, G, H, I, J, K, L, M, N, O, P, Q, R, S),
        >(v, 19)?;
        Ok((a, b, c, d, e, f, g, h, i, j, k, l, m, n, o, p, q, r, s))
    }
}

impl<
    A: Extract,
    B: Extract,
    C: Extract,
    D: Extract,
    E: Extract,
    F: Extract,
    G: Extract,
    H: Extract,
    I: Extract,
    J: Extract,
    K: Extract,
    L: Extract,
    M: Extract,
    N: Extract,
    O: Extract,
    P: Extract,
    Q: Extract,
    R: Extract,
    S: Extract,
    T: Extract,
> Extract for (A, B, C, D, E, F, G, H, I, J, K, L, M, N, O, P, Q, R, S, T) {
    open spec fn refusal(v: Content) -> Option<Failure> {
        tuple_refusal::<A, (B, C, D, E, F, G, H, I, J, K, L, M, N, O, P, Q, R, S, T)>(v, 20)
    }

    open spec fn reads(&self, v: Content) -> bool {
        tuple_reads(
            self.0,
            (
                self.1,
                self.2,
                self.3,
                self.4,
                self.5,
                self.6,
                self.7,
                self.8,
                self.9,
                self.10,
                self.11,
                self.12,
                self.13,
                self.14,
                self.15,
                self.16,
                self.17,
                self.18,
                self.19,
            ),
            v,
            20,
        )
    }

    fn extract(v: DeSerialResult) -> (r: Result<
        (A, B, C, D, E, F, G, H, I, J, K, L, M, N, O, P, Q, R, S, T),
        SerialError,
    >) {
        let (
            a,
            (b, c, d, e, f, g, h, i, j, k, l, m, n, o, p, q, r, s, t),
        ) = split_tuple::<
            A,
            (B, C, D, E, F, G, H, I, J, K, L, M, N, O, P, Q, R, S, T),
        >(v, 20)?;
        Ok((a, b, c, d, e, f, g, h, i, j, k, l, m, n, o, p, q, r, s, t))
    }
}

impl<
    A: Extract,
    B: Extract,
    C: Extract,
    D: Extract,
    E: Extract,
    F: Extract,
    G: Extract,
    H: Extract,
    I: Extract,
    J: Extract,
    K: Extract,
    L: Extract,
    M: Extract,
    N: Extract,
    O: Extract,
    P: Extract,
    Q: Extract,
    R: Extract,
    S: Extract,
    T: Extract,
    U: Extract,
> Extract for (A, B, C, D, E, F, G, H, I, J, K, L, M, N, O, P, Q, R, S, T, U) {
    open spec fn refusal(v: Content) -> Option<Failure> {
        tuple_refusal::<A, (B, C, D, E, F, G, H, I, J, K, L, M, N, O, P, Q, R, S, T, U)>(v, 21)
    }

    open spec fn reads(&self, v: Content) -> bool {
        tuple_reads(
            self.0,
            (
                self.1,
                self.2,
                self.3,
                self.4,
                self.5,
                self.6,
                self.7,
                self.8,
                self.9,
                self.10,
                self.11,
                self.12,
                self.13,
                self.14,
                self.15,
                self.16,
                self.17,
                self.18,
                self.19,
                self.20,
            ),
            v,
            21,
        )
    }

    fn extract(v: DeSerialResult) -> (r: Result<
        (A, B, C, D, E, F, G, H, I, J, K, L, M, N, O, P, Q, R, S, T, U),
        SerialError,
    >) {
        let (
            a,
            (b, c, d, e, f, g, h, i, j, k, l, m, n, o, p, q, r, s, t, u),
        ) = split_tuple::<
            A,
            (B, C, D, E, F, G, H, I, J, K, L, M, N, O, P, Q, R, S, T, U),
        >(v, 21)?;
        Ok((a, b, c, d, e, f, g, h, i, j, k, l, m, n, o, p, q, r, s, t, u))
    }
}

impl<
    A: Extract,
    B: Extract,
    C: Extract,
    D: Extract,
    E: Extract,
    F: Extract,
    G: Extract,
    H: Extract,
    I: Extract,
    J: Extract,
    K: Extract,
    L: Extract,
    M: Extract,
    N: Extract,
    O: Extract,
    P: Extract,
    Q: Extract,
    R: Extract,
    S: Extract,
    T: Extract,
    U: Extract,
    V: Extract,
> Extract for (A, B, C, D, E, F, G, H, I, J, K, L, M, N, O, P, Q, R, S, T, U, V) {
    open spec fn refusal(v: Content) -> Option<Failure> {
        tuple_refusal::<A, (B, C, D, E, F, G, H, I, J, K, L, M, N, O, P, Q, R, S, T, U, V)>(v, 22)
    }

    open spec fn reads(&self, v: Content) -> bool {
        tuple_reads(
            self.0,
            (
                self.1,
                self.2,
                self.3,
                self.4,
                self.5,
                self.6,
                self.7,
                self.8,
                self.9,
                self.10,
                self.11,
                self.12,
                self.13,
                self.14,
                self.15,
                self.16,
                self.17,
                self.18,
                self.19,
                self.20,
                self.21,
            ),
            v,
            22,
        )
    }

    fn extract(v: DeSerialResult) -> (r: Result<
        (A, B, C, D, E, F, G, H, I, J, K, L, M, N, O, P, Q, R, S, T, U, V),
        SerialError,
    >) {
        let (
            a,
            (b, c, d, e, f, g, h, i, j, k, l, m, n, o, p, q, r, s, t, u, v),
        ) = split_tuple::<
            A,
            (B, C, D, E, F, G, H, I, J, K, L, M, N, O, P, Q, R, S, T, U, V),
        >(v, 22)?;
        Ok((a, b, c, d, e, f, g, h, i, j, k, l, m, n, o, p, q, r, s, t, u, v))
    }
}

impl<
    A: Extract,
    B: Extract,
    C: Extract,
    D: Extract,
    E: Extract,
    F: Extract,
    G: Extract,
    H: Extract,
    I: Extract,
    J: Extract,
    K: Extract,
    L: Extract,
    M: Extract,
    N: Extract,
    O: Extract,
    P: Extract,
    Q: Extract,
    R: Extract,
    S: Extract,
    T: Extract,
    U: Extract,
    V: Extract,
    W: Extract,
> Extract for (A, B, C, D, E, F, G, H, I, J, K, L, M, N, O, P, Q, R, S, T, U, V, W) {
    open spec fn refusal(v: Content) -> Option<Failure> {
        tuple_refusal::<
            A,
            (B, C, D, E, F, G, H, I, J, K, L, M, N, O, P, Q, R, S, T, U, V, W),
        >(v, 23)
    }

    open spec fn reads(&self, v: Content) -> bool {
        tuple_reads(
            self.0,
            (
                self.1,
                self.2,
                self.3,
                self.4,
                self.5,
                self.6,
                self.7,
                self.8,
                self.9,
                self.10,
                self.11,
                self.12,
                self.13,
                self.14,
                self.15,
                self.16,
                self.17,
                self.18,
                self.19,
                self.20,
                self.21,
                self.22,
            ),
            v,
            23,
        )
    }

    fn extract(v: DeSerialResult) -> (r: Result<
        (A, B, C, D, E, F, G, H, I, J, K, L, M, N, O, P, Q, R, S, T, U, V, W),
        SerialError,
    >) {
        let (
            a,
            (b, c, d, e, f, g, h, i, j, k, l, m, n, o, p, q, r, s, t, u, v, w),
        ) = split_tuple::<
            A,
            (B, C, D, E, F, G, H, I, J, K, L, M, N, O, P, Q, R, S, T, U, V, W),
        >(v, 23)?;
        Ok((a, b, c, d, e, f, g, h, i, j, k, l, m, n, o, p, q, r, s, t, u, v, w))
    }
}

} // verus!
