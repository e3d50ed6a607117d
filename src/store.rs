use vstd::prelude::*;

use crate::error::StoreError;
use crate::model::{ItemRow, ItemRowView, ProductModel, ProductView, Timestamp};

verus! {

/// Some product row carries the external identifier `u`.
pub open spec fn has_uuid(ps: Seq<ProductView>, u: u128) -> bool {
    exists|i: int| 0 <= i < ps.len() && (#[trigger] ps[i]).uuid == u
}

/// Some product row has the surrogate key `id`.
pub open spec fn has_product_id(ps: Seq<ProductView>, id: i32) -> bool {
    exists|i: int| 0 <= i < ps.len() && (#[trigger] ps[i]).id == id
}

/// Some item row has the surrogate key `id`.
pub open spec fn has_item_id(rs: Seq<ItemRowView>, id: i32) -> bool {
    exists|k: int| 0 <= k < rs.len() && (#[trigger] rs[k]).id == id
}

/// Some item row references the product with surrogate key `pid`.
pub open spec fn is_referenced(rs: Seq<ItemRowView>, pid: i32) -> bool {
    exists|k: int| 0 <= k < rs.len() && (#[trigger] rs[k]).product_id == pid
}

/// Product keys lie in `1..next` and both keys are unique.
pub open spec fn products_wf(ps: Seq<ProductView>, next: i32) -> bool {
    &&& forall|i: int| 0 <= i < ps.len() ==> 0 < (#[trigger] ps[i]).id < next
    &&& forall|i: int, j: int|
        0 <= i < ps.len() && 0 <= j < ps.len() && i != j ==> (#[trigger] ps[i]).id != (
        #[trigger] ps[j]).id && ps[i].uuid != ps[j].uuid
}

/// Item keys lie in `1..next`, are unique, and every item references a
/// stored product.
pub open spec fn items_wf(rs: Seq<ItemRowView>, next: i32, ps: Seq<ProductView>) -> bool {
    &&& forall|k: int| 0 <= k < rs.len() ==> 0 < (#[trigger] rs[k]).id < next
    &&& forall|k: int, l: int|
        0 <= k < rs.len() && 0 <= l < rs.len() && k != l ==> (#[trigger] rs[k]).id != (
        #[trigger] rs[l]).id
    &&& forall|k: int| 0 <= k < rs.len() ==> has_product_id(ps, (#[trigger] rs[k]).product_id)
}

/// The table `ps` after `UPDATE ... SET <v> WHERE id = v.id`.
pub open spec fn replace_product(ps: Seq<ProductView>, v: ProductView) -> Seq<ProductView> {
    ps.map_values(|p: ProductView| if p.id == v.id { v } else { p })
}

/// The table `rs` after `UPDATE ... SET <v> WHERE id = v.id`.
pub open spec fn replace_item(rs: Seq<ItemRowView>, v: ItemRowView) -> Seq<ItemRowView> {
    rs.map_values(|r: ItemRowView| if r.id == v.id { v } else { r })
}

proof fn lemma_push_keeps_ids(ps: Seq<ProductView>, v: ProductView)
    ensures
        forall|id: i32| has_product_id(ps, id) ==> has_product_id(ps.push(v), id),
{
    assert forall|id: i32| has_product_id(ps, id) implies has_product_id(ps.push(v), id) by {
        let i = choose|i: int| 0 <= i < ps.len() && (#[trigger] ps[i]).id == id;
        assert(ps.push(v)[i] == ps[i]);
    }
}

proof fn lemma_update_keeps_ids(ps: Seq<ProductView>, i: int, v: ProductView)
    requires
        0 <= i < ps.len(),
        ps[i].id == v.id,
    ensures
        forall|id: i32| has_product_id(ps, id) ==> has_product_id(ps.update(i, v), id),
{
    assert forall|id: i32| has_product_id(ps, id) implies has_product_id(ps.update(i, v), id) by {
        let j = choose|j: int| 0 <= j < ps.len() && (#[trigger] ps[j]).id == id;
        assert(ps.update(i, v)[j].id == id);
    }
}

proof fn lemma_remove_keeps_ids(ps: Seq<ProductView>, i: int)
    requires
        0 <= i < ps.len(),
    ensures
        forall|id: i32|
            has_product_id(ps, id) && id != ps[i].id ==> has_product_id(ps.remove(i), id),
{
    assert forall|id: i32| has_product_id(ps, id) && id != ps[i].id implies has_product_id(
        ps.remove(i),
        id,
    ) by {
        let j = choose|j: int| 0 <= j < ps.len() && (#[trigger] ps[j]).id == id;
        if j < i {
            assert(ps.remove(i)[j] == ps[j]);
        } else {
            assert(ps.remove(i)[j - 1] == ps[j]);
        }
    }
}

/// A relational store of two tables, `product` and `item`, with
/// auto-increment surrogate keys, a unique key on the product's uuid, and a
/// foreign key from `item.product_id` to `product.id` that restricts
/// deletion of a referenced product.
pub struct Database {
    products: Vec<ProductModel>,
    items: Vec<ItemRow>,
    next_product_id: i32,
    next_item_id: i32,
}

impl Database {
    /// The rows of the product table, in insertion order.
    pub closed spec fn products(&self) -> Seq<ProductView> {
        self.products@.map_values(|p: ProductModel| p@)
    }

    /// The rows of the item table, in insertion order.
    pub closed spec fn items(&self) -> Seq<ItemRowView> {
        self.items@.map_values(|r: ItemRow| r@)
    }

    /// The key the next inserted product gets.
    pub closed spec fn next_product_id(&self) -> i32 {
        self.next_product_id
    }

    /// The key the next inserted item gets.
    pub closed spec fn next_item_id(&self) -> i32 {
        self.next_item_id
    }

    /// Both stores hold the same rows and the same key sequences.
    pub open spec fn same_as(&self, other: &Database) -> bool {
        &&& self.products() == other.products()
        &&& self.items() == other.items()
        &&& self.next_product_id() == other.next_product_id()
        &&& self.next_item_id() == other.next_item_id()
    }

    pub open spec fn wf(&self) -> bool {
        &&& 1 <= self.next_product_id()
        &&& 1 <= self.next_item_id()
        &&& products_wf(self.products(), self.next_product_id())
        &&& items_wf(self.items(), self.next_item_id(), self.products())
    }

    /// An empty store.
    pub fn new() -> (r: Database)
        ensures
            r.wf(),
            r.products() == Seq::<ProductView>::empty(),
            r.items() == Seq::<ItemRowView>::empty(),
            r.next_product_id() == 1,
            r.next_item_id() == 1,
    {
        let r = Database { products: Vec::new(), items: Vec::new(), next_product_id: 1, next_item_id: 1 };
        assert(r.products() =~= Seq::<ProductView>::empty());
        assert(r.items() =~= Seq::<ItemRowView>::empty());
        r
    }

    /// Position of the product row with the given uuid.
    fn product_index(&self, uuid: u128) -> (r: Option<usize>)
        ensures
            match r {
                Some(i) => i < self.products().len() && self.products()[i as int].uuid == uuid,
                None => !has_uuid(self.products(), uuid),
            },
    {
        let mut i: usize = 0;
        while i < self.products.len()
            invariant
                i <= self.products@.len(),
                forall|j: int| 0 <= j < i ==> (#[trigger] self.products()[j]).uuid != uuid,
            decreases self.products@.len() - i,
        {
            if self.products[i].uuid == uuid {
                return Some(i);
            }
            i += 1;
        }
        None
    }

    /// Position of the product row with the given surrogate key.
    fn product_id_index(&self, id: i32) -> (r: Option<usize>)
        ensures
            match r {
                Some(i) => i < self.products().len() && self.products()[i as int].id == id,
                None => !has_product_id(self.products(), id),
            },
    {
        let mut i: usize = 0;
        while i < self.products.len()
            invariant
                i <= self.products@.len(),
                forall|j: int| 0 <= j < i ==> (#[trigger] self.products()[j]).id != id,
            decreases self.products@.len() - i,
        {
            if self.products[i].id == id {
                return Some(i);
            }
            i += 1;
        }
        None
    }

    /// Position of the item row with the given surrogate key.
    fn item_index(&self, id: i32) -> (r: Option<usize>)
        ensures
            match r {
                Some(k) => k < self.items().len() && self.items()[k as int].id == id,
                None => !has_item_id(self.items(), id),
            },
    {
        let mut k: usize = 0;
        while k < self.items.len()
            invariant
                k <= self.items@.len(),
                forall|j: int| 0 <= j < k ==> (#[trigger] self.items()[j]).id != id,
            decreases self.items@.len() - k,
        {
            if self.items[k].id == id {
                return Some(k);
            }
            k += 1;
        }
        None
    }

    /// Whether some item row references the product with key `pid`.
    fn referenced(&self, pid: i32) -> (r: bool)
        ensures
            r == is_referenced(self.items(), pid),
    {
        let mut k: usize = 0;
        while k < self.items.len()
            invariant
                k <= self.items@.len(),
                forall|j: int| 0 <= j < k ==> (#[trigger] self.items()[j]).product_id != pid,
            decreases self.items@.len() - k,
        {
            if self.items[k].product_id == pid {
                assert(self.items()[k as int].product_id == pid);
                return true;
            }
            k += 1;
        }
        false
    }

    /// `INSERT INTO product`: the row gets the next surrogate key.
    pub fn insert_product(
        &mut self,
        uuid: u128,
        name: String,
        description: String,
        created_at: Timestamp,
    ) -> (r: Result<ProductModel, StoreError>)
        requires
            old(self).wf(),
        ensures
            final(self).wf(),
            final(self).items() == old(self).items(),
            final(self).next_item_id() == old(self).next_item_id(),
            old(self).next_product_id() == i32::MAX ==> r == Err::<ProductModel, StoreError>(
                StoreError::KeyExhausted,
            ),
            has_uuid(old(self).products(), uuid) && old(self).next_product_id() < i32::MAX ==> r
                == Err::<ProductModel, StoreError>(StoreError::UniqueViolation),
            !has_uuid(old(self).products(), uuid) && old(self).next_product_id() < i32::MAX
                ==> r is Ok,
            r is Err ==> final(self).products() == old(self).products()
                && final(self).next_product_id() == old(self).next_product_id(),
            r matches Ok(p) ==> p@ == (ProductView {
                id: old(self).next_product_id(),
                uuid,
                name: name@,
                description: description@,
                created_at: created_at.micros,
            }) && final(self).products() == old(self).products().push(p@)
                && final(self).next_product_id() == old(self).next_product_id() + 1,
    {
        if self.next_product_id == i32::MAX {
            return Err(StoreError::KeyExhausted);
        }
        if self.product_index(uuid).is_some() {
            return Err(StoreError::UniqueViolation);
        }
        let row = ProductModel { id: self.next_product_id, uuid, name, description, created_at };
        let ghost ps = self.products();
        proof {
            lemma_push_keeps_ids(ps, row@);
        }
        self.products.push(row.clone());
        self.next_product_id = self.next_product_id + 1;
        assert(self.products() =~= ps.push(row@));
        Ok(row)
    }

    /// `UPDATE product ... WHERE id = row.id`, checking the uuid's unique key.
    pub fn update_product_row(&mut self, row: ProductModel) -> (r: Result<ProductModel, StoreError>)
        requires
            old(self).wf(),
        ensures
            final(self).wf(),
            final(self).items() == old(self).items(),
            final(self).next_item_id() == old(self).next_item_id(),
            final(self).next_product_id() == old(self).next_product_id(),
            !has_product_id(old(self).products(), row.id) ==> r == Err::<ProductModel, StoreError>(
                StoreError::RecordNotUpdated,
            ),
            has_product_id(old(self).products(), row.id) ==> (r is Ok <==> forall|j: int|
                0 <= j < old(self).products().len() && (#[trigger] old(self).products()[j]).uuid
                    == row.uuid ==> old(self).products()[j].id == row.id),
            r is Err ==> final(self).products() == old(self).products(),
            r is Err && has_product_id(old(self).products(), row.id) ==> r
                == Err::<ProductModel, StoreError>(StoreError::UniqueViolation),
            r matches Ok(p) ==> p@ == row@ && final(self).products() == replace_product(
                old(self).products(),
                row@,
            ),
    {
        let i = match self.product_id_index(row.id) {
            Some(i) => i,
            None => {
                return Err(StoreError::RecordNotUpdated);
            },
        };
        let ghost ps = self.products();
        match self.product_index(row.uuid) {
            Some(j) => {
                if j != i {
                    assert(ps[j as int].uuid == row.uuid && ps[j as int].id != row.id);
                    return Err(StoreError::UniqueViolation);
                }
            },
            None => {},
        }
        assert forall|j: int| 0 <= j < ps.len() && (#[trigger] ps[j]).uuid == row.uuid implies ps[j].id
            == row.id by {
            if j != i {
                assert(ps[j].uuid != ps[i as int].uuid);
            }
        }
        proof {
            lemma_update_keeps_ids(ps, i as int, row@);
        }
        self.products[i] = row.clone();
        assert(self.products() =~= ps.update(i as int, row@));
        assert(self.products() =~= replace_product(ps, row@));
        Ok(row)
    }

    /// `DELETE FROM product WHERE uuid = ?`: the number of rows removed.
    /// Items still referencing the product make it fail (restrict policy).
    pub fn delete_products_by_uuid(&mut self, uuid: u128) -> (r: Result<u64, StoreError>)
        requires
            old(self).wf(),
        ensures
            final(self).wf(),
            final(self).items() == old(self).items(),
            final(self).next_item_id() == old(self).next_item_id(),
            final(self).next_product_id() == old(self).next_product_id(),
            !has_uuid(old(self).products(), uuid) ==> r == Ok::<u64, StoreError>(0),
            has_uuid(old(self).products(), uuid) && r is Ok ==> r == Ok::<u64, StoreError>(1),
            r is Err || r == Ok::<u64, StoreError>(0) ==> final(self).products() == old(
                self,
            ).products(),
            r is Err <==> exists|i: int|
                0 <= i < old(self).products().len() && (#[trigger] old(self).products()[i]).uuid
                    == uuid && is_referenced(old(self).items(), old(self).products()[i].id),
            r is Err ==> r == Err::<u64, StoreError>(StoreError::ForeignKeyViolation),
            r matches Ok(n) ==> n <= 1 && (n == 1 <==> exists|i: int|
                0 <= i < old(self).products().len() && (#[trigger] old(self).products()[i]).uuid
                    == uuid && final(self).products() == old(self).products().remove(i)),
    {
        let i = match self.product_index(uuid) {
            Some(i) => i,
            None => {
                return Ok(0);
            },
        };
        let ghost ps = self.products();
        let pid = self.products[i].id;
        if self.referenced(pid) {
            return Err(StoreError::ForeignKeyViolation);
        }
        assert forall|j: int| 0 <= j < ps.len() && (#[trigger] ps[j]).uuid == uuid implies !is_referenced(
            self.items(),
            ps[j].id,
        ) by {
            if j != i {
                assert(ps[j].uuid != ps[i as int].uuid);
            }
        }
        proof {
            lemma_remove_keeps_ids(ps, i as int);
        }
        self.products.remove(i);
        assert(self.products() =~= ps.remove(i as int));
        assert forall|k: int| 0 <= k < self.items().len() implies has_product_id(
            self.products(),
            (#[trigger] self.items()[k]).product_id,
        ) by {
            assert(self.items()[k].product_id != pid);
        }
        assert forall|a: int, b: int|
            0 <= a < self.products().len() && 0 <= b < self.products().len() && a != b implies (
            #[trigger] self.products()[a]).id != (#[trigger] self.products()[b]).id
            && self.products()[a].uuid != self.products()[b].uuid by {
            let a0 = if a < i { a } else { a + 1 };
            let b0 = if b < i { b } else { b + 1 };
            assert(self.products()[a] == ps[a0]);
            assert(self.products()[b] == ps[b0]);
        }
        Ok(1)
    }

    /// `INSERT INTO item`: the row gets the next surrogate key; the foreign
    /// key must name a stored product.
    pub fn insert_item(&mut self, name: String, product_id: i32, quantity: i32) -> (r: Result<
        ItemRow,
        StoreError,
    >)
        requires
            old(self).wf(),
        ensures
            final(self).wf(),
            final(self).products() == old(self).products(),
            final(self).next_product_id() == old(self).next_product_id(),
            !has_product_id(old(self).products(), product_id) ==> r == Err::<ItemRow, StoreError>(
                StoreError::ForeignKeyViolation,
            ),
            has_product_id(old(self).products(), product_id) && old(self).next_item_id()
                == i32::MAX ==> r == Err::<ItemRow, StoreError>(StoreError::KeyExhausted),
            has_product_id(old(self).products(), product_id) && old(self).next_item_id()
                < i32::MAX ==> r is Ok,
            r is Err ==> final(self).items() == old(self).items() && final(self).next_item_id()
                == old(self).next_item_id(),
            r matches Ok(row) ==> row@ == (ItemRowView {
                id: old(self).next_item_id(),
                name: name@,
                product_id,
                quantity,
            }) && final(self).items() == old(self).items().push(row@)
                && final(self).next_item_id() == old(self).next_item_id() + 1,
    {
        if self.product_id_index(product_id).is_none() {
            return Err(StoreError::ForeignKeyViolation);
        }
        if self.next_item_id == i32::MAX {
            return Err(StoreError::KeyExhausted);
        }
        let row = ItemRow { id: self.next_item_id, name, product_id, quantity };
        let ghost rs = self.items();
        self.items.push(row.clone());
        self.next_item_id = self.next_item_id + 1;
        assert(self.items() =~= rs.push(row@));
        assert forall|k: int| 0 <= k < self.items().len() implies has_product_id(
            self.products(),
            (#[trigger] self.items()[k]).product_id,
        ) by {
            if k < rs.len() {
                assert(self.items()[k] == rs[k]);
            }
        }
        Ok(row)
    }

    /// `UPDATE item ... WHERE id = row.id`, checking the foreign key.
    pub fn update_item_row(&mut self, row: ItemRow) -> (r: Result<ItemRow, StoreError>)
        requires
            old(self).wf(),
        ensures
            final(self).wf(),
            final(self).products() == old(self).products(),
            final(self).next_item_id() == old(self).next_item_id(),
            final(self).next_product_id() == old(self).next_product_id(),
            !has_item_id(old(self).items(), row.id) ==> r == Err::<ItemRow, StoreError>(
                StoreError::RecordNotUpdated,
            ),
            has_item_id(old(self).items(), row.id) && !has_product_id(
                old(self).products(),
                row.product_id,
            ) ==> r == Err::<ItemRow, StoreError>(StoreError::ForeignKeyViolation),
            has_item_id(old(self).items(), row.id) && has_product_id(
                old(self).products(),
                row.product_id,
            ) ==> r is Ok,
            r is Err ==> final(self).items() == old(self).items(),
            r matches Ok(p) ==> p@ == row@ && final(self).items() == replace_item(
                old(self).items(),
                row@,
            ),
    {
        let k = match self.item_index(row.id) {
            Some(k) => k,
            None => {
                return Err(StoreError::RecordNotUpdated);
            },
        };
        if self.product_id_index(row.product_id).is_none() {
            return Err(StoreError::ForeignKeyViolation);
        }
        let ghost rs = self.items();
        self.items[k] = row.clone();
        assert(self.items() =~= rs.update(k as int, row@));
        assert(self.items() =~= replace_item(rs, row@));
        assert forall|a: int| 0 <= a < self.items().len() implies has_product_id(
            self.products(),
            (#[trigger] self.items()[a]).product_id,
        ) by {
            if a != k {
                assert(self.items()[a] == rs[a]);
            }
        }
        Ok(row)
    }

    /// `DELETE FROM item WHERE id = ?`: the number of rows removed.
    pub fn delete_item_by_id(&mut self, id: i32) -> (r: u64)
        requires
            old(self).wf(),
        ensures
            final(self).wf(),
            final(self).products() == old(self).products(),
            final(self).next_item_id() == old(self).next_item_id(),
            final(self).next_product_id() == old(self).next_product_id(),
            r == 0 <==> !has_item_id(old(self).items(), id),
            r == 0 ==> final(self).items() == old(self).items(),
            r != 0 ==> r == 1 && exists|k: int|
                0 <= k < old(self).items().len() && (#[trigger] old(self).items()[k]).id == id
                    && final(self).items() == old(self).items().remove(k),
    {
        let k = match self.item_index(id) {
            Some(k) => k,
            None => {
                return 0;
            },
        };
        let ghost rs = self.items();
        self.items.remove(k);
        assert(self.items() =~= rs.remove(k as int));
        assert forall|a: int| 0 <= a < self.items().len() implies has_product_id(
            self.products(),
            (#[trigger] self.items()[a]).product_id,
        ) && 0 < self.items()[a].id < self.next_item_id by {
            let a0 = if a < k { a } else { a + 1 };
            assert(self.items()[a] == rs[a0]);
        }
        assert forall|a: int, b: int|
            0 <= a < self.items().len() && 0 <= b < self.items().len() && a != b implies (
            #[trigger] self.items()[a]).id != (#[trigger] self.items()[b]).id by {
            let a0 = if a < k { a } else { a + 1 };
            let b0 = if b < k { b } else { b + 1 };
            assert(self.items()[a] == rs[a0]);
            assert(self.items()[b] == rs[b0]);
        }
        1
    }
    /// `SELECT * FROM product`.
    pub fn product_rows(&self) -> (r: Vec<ProductModel>)
        ensures
            r@.map_values(|p: ProductModel| p@) == self.products(),
    {
        let mut out: Vec<ProductModel> = Vec::new();
        let mut i: usize = 0;
        while i < self.products.len()
            invariant
                i <= self.products@.len(),
                out@.map_values(|p: ProductModel| p@) == self.products().take(i as int),
            decreases self.products@.len() - i,
        {
            let ghost before = out@.map_values(|p: ProductModel| p@);
            out.push(self.products[i].clone());
            assert(out@.map_values(|p: ProductModel| p@) =~= before.push(self.products()[i as int]));
            assert(self.products().take(i + 1) =~= self.products().take(i as int).push(
                self.products()[i as int],
            ));
            i += 1;
        }
        assert(self.products().take(i as int) =~= self.products());
        out
    }

    /// `SELECT * FROM product WHERE uuid = ? LIMIT 1`.
    pub fn product_by_uuid(&self, uuid: u128) -> (r: Option<ProductModel>)
        ensures
            r is None <==> !has_uuid(self.products(), uuid),
            r matches Some(p) ==> p.uuid == uuid && exists|i: int|
                0 <= i < self.products().len() && #[trigger] self.products()[i] == p@,
    {
        match self.product_index(uuid) {
            Some(i) => Some(self.products[i].clone()),
            None => None,
        }
    }

    /// `SELECT * FROM item`.
    pub fn item_rows(&self) -> (r: Vec<ItemRow>)
        ensures
            r@.map_values(|x: ItemRow| x@) == self.items(),
    {
        let mut out: Vec<ItemRow> = Vec::new();
        let mut k: usize = 0;
        while k < self.items.len()
            invariant
                k <= self.items@.len(),
                out@.map_values(|x: ItemRow| x@) == self.items().take(k as int),
            decreases self.items@.len() - k,
        {
            let ghost before = out@.map_values(|x: ItemRow| x@);
            out.push(self.items[k].clone());
            assert(out@.map_values(|x: ItemRow| x@) =~= before.push(self.items()[k as int]));
            assert(self.items().take(k + 1) =~= self.items().take(k as int).push(
                self.items()[k as int],
            ));
            k += 1;
        }
        assert(self.items().take(k as int) =~= self.items());
        out
    }

    /// `SELECT * FROM item WHERE id = ?`.
    pub fn item_by_id(&self, id: i32) -> (r: Option<ItemRow>)
        ensures
            r is None <==> !has_item_id(self.items(), id),
            r matches Some(x) ==> x.id == id && exists|k: int|
                0 <= k < self.items().len() && #[trigger] self.items()[k] == x@,
    {
        match self.item_index(id) {
            Some(k) => Some(self.items[k].clone()),
            None => None,
        }
    }
}

} // verus!
