//! A four-by-four matrix, stored by columns.

use vstd::prelude::*;

verus! {

/// A 4x4 matrix. The field `cKrN` is the entry in column `K`, row `N`.
#[derive(Debug, PartialEq)]
pub struct Mat4<T> {
    pub c0r0: T,
    pub c0r1: T,
    pub c0r2: T,
    pub c0r3: T,
    pub c1r0: T,
    pub c1r1: T,
    pub c1r2: T,
    pub c1r3: T,
    pub c2r0: T,
    pub c2r1: T,
    pub c2r2: T,
    pub c2r3: T,
    pub c3r0: T,
    pub c3r1: T,
    pub c3r2: T,
    pub c3r3: T,
}

impl<T: Copy> Clone for Mat4<T> {
    fn clone(&self) -> (m: Self)
        ensures
            m == *self,
    {
        *self
    }
}

impl<T: Copy> Copy for Mat4<T> {

}

impl<T> View for Mat4<T> {
    type V = Seq<Seq<T>>;

    /// The four columns, each with its four entries from row 0 to row 3, so that
    /// `m@[c][r]` is the entry in column `c`, row `r`.
    open spec fn view(&self) -> Seq<Seq<T>> {
        seq![
            seq![self.c0r0, self.c0r1, self.c0r2, self.c0r3],
            seq![self.c1r0, self.c1r1, self.c1r2, self.c1r3],
            seq![self.c2r0, self.c2r1, self.c2r2, self.c2r3],
            seq![self.c3r0, self.c3r1, self.c3r2, self.c3r3],
        ]
    }
}

impl<T> Mat4<T> {
    /// The matrix with the given entries, column after column.
    pub fn new(
        c0r0: T,
        c0r1: T,
        c0r2: T,
        c0r3: T,
        c1r0: T,
        c1r1: T,
        c1r2: T,
        c1r3: T,
        c2r0: T,
        c2r1: T,
        c2r2: T,
        c2r3: T,
        c3r0: T,
        c3r1: T,
        c3r2: T,
        c3r3: T,
    ) -> (m: Self)
        ensures
            m == (Mat4 {
                c0r0,
                c0r1,
                c0r2,
                c0r3,
                c1r0,
                c1r1,
                c1r2,
                c1r3,
                c2r0,
                c2r1,
                c2r2,
                c2r3,
                c3r0,
                c3r1,
                c3r2,
                c3r3,
            }),
    {
        Mat4 {
            c0r0,
            c0r1,
            c0r2,
            c0r3,
            c1r0,
            c1r1,
            c1r2,
            c1r3,
            c2r0,
            c2r1,
            c2r2,
            c2r3,
            c3r0,
            c3r1,
            c3r2,
            c3r3,
        }
    }
}

impl<T: Copy> Mat4<T> {
    /// The entry in column `col`, row `row`; `None` where either is 4 or more.
    pub fn get(&self, col: usize, row: usize) -> (e: Option<T>)
        ensures
            e == if col < 4 && row < 4 {
                Some(self@[col as int][row as int])
            } else {
                None
            },
    {
        match (col, row) {
            (0, 0) => Some(self.c0r0),
            (0, 1) => Some(self.c0r1),
            (0, 2) => Some(self.c0r2),
            (0, 3) => Some(self.c0r3),
            (1, 0) => Some(self.c1r0),
            (1, 1) => Some(self.c1r1),
            (1, 2) => Some(self.c1r2),
            (1, 3) => Some(self.c1r3),
            (2, 0) => Some(self.c2r0),
            (2, 1) => Some(self.c2r1),
            (2, 2) => Some(self.c2r2),
            (2, 3) => Some(self.c2r3),
            (3, 0) => Some(self.c3r0),
            (3, 1) => Some(self.c3r1),
            (3, 2) => Some(self.c3r2),
            (3, 3) => Some(self.c3r3),
            _ => None,
        }
    }
}

} // verus!
