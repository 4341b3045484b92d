//! Tuples as query projections.
//!
//! A tuple of up to fifteen cloneable fields is a projection of the tuple of
//! its watched fields: the snapshot clones every field, the write sets every
//! field without reporting a change, and a change of any field is a change.

use crate::change::Watched;
use crate::queries::{field_written, QueryDataOwned};
use vstd::prelude::*;

verus! {

impl<T0: Clone> QueryDataOwned for (T0,) {
    type Qdata = (Watched<T0>,);

    open spec fn projects(data: Self::Qdata, projection: Self) -> bool {
        cloned(data.0.value(), projection.0)
    }

    open spec fn writes(&self, before: Self::Qdata, after: Self::Qdata) -> bool {
        field_written(self.0, before.0, after.0)
    }

    open spec fn changed(data: Self::Qdata) -> bool {
        data.0.changed()
    }

    fn from_query_data(data: &Self::Qdata) -> (projection: Self) {
        (data.0.get().clone(),)
    }

    fn set_query_data(&self, data: &mut Self::Qdata) {
        data.0.overwrite(self.0.clone());
    }

    fn is_changed(data: &Self::Qdata) -> (changed: bool) {
        data.0.is_changed()
    }
}

impl<T0: Clone, T1: Clone> QueryDataOwned for (T0, T1) {
    type Qdata = (Watched<T0>, Watched<T1>);

    open spec fn projects(data: Self::Qdata, projection: Self) -> bool {
        &&& cloned(data.0.value(), projection.0)
        &&& cloned(data.1.value(), projection.1)
    }

    open spec fn writes(&self, before: Self::Qdata, after: Self::Qdata) -> bool {
        &&& field_written(self.0, before.0, after.0)
        &&& field_written(self.1, before.1, after.1)
    }

    open spec fn changed(data: Self::Qdata) -> bool {
        ||| data.0.changed()
        ||| data.1.changed()
    }

    fn from_query_data(data: &Self::Qdata) -> (projection: Self) {
        (data.0.get().clone(), data.1.get().clone())
    }

    fn set_query_data(&self, data: &mut Self::Qdata) {
        data.0.overwrite(self.0.clone());
        data.1.overwrite(self.1.clone());
    }

    fn is_changed(data: &Self::Qdata) -> (changed: bool) {
        if data.0.is_changed() {
            return true;
        }
        if data.1.is_changed() {
            return true;
        }
        false
    }
}

impl<T0: Clone, T1: Clone, T2: Clone> QueryDataOwned for (T0, T1, T2) {
    type Qdata = (Watched<T0>, Watched<T1>, Watched<T2>);

    open spec fn projects(data: Self::Qdata, projection: Self) -> bool {
        &&& cloned(data.0.value(), projection.0)
        &&& cloned(data.1.value(), projection.1)
        &&& cloned(data.2.value(), projection.2)
    }

    open spec fn writes(&self, before: Self::Qdata, after: Self::Qdata) -> bool {
        &&& field_written(self.0, before.0, after.0)
        &&& field_written(self.1, before.1, after.1)
        &&& field_written(self.2, before.2, after.2)
    }

    open spec fn changed(data: Self::Qdata) -> bool {
        ||| data.0.changed()
        ||| data.1.changed()
        ||| data.2.changed()
    }

    fn from_query_data(data: &Self::Qdata) -> (projection: Self) {
        (data.0.get().clone(), data.1.get().clone(), data.2.get().clone())
    }

    fn set_query_data(&self, data: &mut Self::Qdata) {
        data.0.overwrite(self.0.clone());
        data.1.overwrite(self.1.clone());
        data.2.overwrite(self.2.clone());
    }

    fn is_changed(data: &Self::Qdata) -> (changed: bool) {
        if data.0.is_changed() {
            return true;
        }
        if data.1.is_changed() {
            return true;
        }
        if data.2.is_changed() {
            return true;
        }
        false
    }
}

impl<T0: Clone, T1: Clone, T2: Clone, T3: Clone> QueryDataOwned for (T0, T1, T2, T3) {
    type Qdata = (Watched<T0>, Watched<T1>, Watched<T2>, Watched<T3>);

    open spec fn projects(data: Self::Qdata, projection: Self) -> bool {
        &&& cloned(data.0.value(), projection.0)
        &&& cloned(data.1.value(), projection.1)
        &&& cloned(data.2.value(), projection.2)
        &&& cloned(data.3.value(), projection.3)
    }

    open spec fn writes(&self, before: Self::Qdata, after: Self::Qdata) -> bool {
        &&& field_written(self.0, before.0, after.0)
        &&& field_written(self.1, before.1, after.1)
        &&& field_written(self.2, before.2, after.2)
        &&& field_written(self.3, before.3, after.3)
    }

    open spec fn changed(data: Self::Qdata) -> bool {
        ||| data.0.changed()
        ||| data.1.changed()
        ||| data.2.changed()
        ||| data.3.changed()
    }

    fn from_query_data(data: &Self::Qdata) -> (projection: Self) {
        (
            data.0.get().clone(),
            data.1.get().clone(),
            data.2.get().clone(),
            data.3.get().clone(),
        )
    }

    fn set_query_data(&self, data: &mut Self::Qdata) {
        data.0.overwrite(self.0.clone());
        data.1.overwrite(self.1.clone());
        data.2.overwrite(self.2.clone());
        data.3.overwrite(self.3.clone());
    }

    fn is_changed(data: &Self::Qdata) -> (changed: bool) {
        if data.0.is_changed() {
            return true;
        }
        if data.1.is_changed() {
            return true;
        }
        if data.2.is_changed() {
            return true;
        }
        if data.3.is_changed() {
            return true;
        }
        false
    }
}

impl<T0: Clone, T1: Clone, T2: Clone, T3: Clone, T4: Clone> QueryDataOwned for (T0, T1, T2, T3, T4) {
    type Qdata = (Watched<T0>, Watched<T1>, Watched<T2>, Watched<T3>, Watched<T4>);

    open spec fn projects(data: Self::Qdata, projection: Self) -> bool {
        &&& cloned(data.0.value(), projection.0)
        &&& cloned(data.1.value(), projection.1)
        &&& cloned(data.2.value(), projection.2)
        &&& cloned(data.3.value(), projection.3)
        &&& cloned(data.4.value(), projection.4)
    }

    open spec fn writes(&self, before: Self::Qdata, after: Self::Qdata) -> bool {
        &&& field_written(self.0, before.0, after.0)
        &&& field_written(self.1, before.1, after.1)
        &&& field_written(self.2, before.2, after.2)
        &&& field_written(self.3, before.3, after.3)
        &&& field_written(self.4, before.4, after.4)
    }

    open spec fn changed(data: Self::Qdata) -> bool {
        ||| data.0.changed()
        ||| data.1.changed()
        ||| data.2.changed()
        ||| data.3.changed()
        ||| data.4.changed()
    }

    fn from_query_data(data: &Self::Qdata) -> (projection: Self) {
        (
            data.0.get().clone(),
            data.1.get().clone(),
            data.2.get().clone(),
            data.3.get().clone(),
            data.4.get().clone(),
        )
    }

    fn set_query_data(&self, data: &mut Self::Qdata) {
        data.0.overwrite(self.0.clone());
        data.1.overwrite(self.1.clone());
        data.2.overwrite(self.2.clone());
        data.3.overwrite(self.3.clone());
        data.4.overwrite(self.4.clone());
    }

    fn is_changed(data: &Self::Qdata) -> (changed: bool) {
        if data.0.is_changed() {
            return true;
        }
        if data.1.is_changed() {
            return true;
        }
        if data.2.is_changed() {
            return true;
        }
        if data.3.is_changed() {
            return true;
        }
        if data.4.is_changed() {
            return true;
        }
        false
    }
}

impl<T0: Clone, T1: Clone, T2: Clone, T3: Clone, T4: Clone, T5: Clone> QueryDataOwned for (T0, T1, T2, T3, T4, T5) {
    type Qdata = (Watched<T0>, Watched<T1>, Watched<T2>, Watched<T3>, Watched<T4>, Watched<T5>);

    open spec fn projects(data: Self::Qdata, projection: Self) -> bool {
        &&& cloned(data.0.value(), projection.0)
        &&& cloned(data.1.value(), projection.1)
        &&& cloned(data.2.value(), projection.2)
        &&& cloned(data.3.value(), projection.3)
        &&& cloned(data.4.value(), projection.4)
        &&& cloned(data.5.value(), projection.5)
    }

    open spec fn writes(&self, before: Self::Qdata, after: Self::Qdata) -> bool {
        &&& field_written(self.0, before.0, after.0)
        &&& field_written(self.1, before.1, after.1)
        &&& field_written(self.2, before.2, after.2)
        &&& field_written(self.3, before.3, after.3)
        &&& field_written(self.4, before.4, after.4)
        &&& field_written(self.5, before.5, after.5)
    }

    open spec fn changed(data: Self::Qdata) -> bool {
        ||| data.0.changed()
        ||| data.1.changed()
        ||| data.2.changed()
        ||| data.3.changed()
        ||| data.4.changed()
        ||| data.5.changed()
    }

    fn from_query_data(data: &Self::Qdata) -> (projection: Self) {
        (
            data.0.get().clone(),
            data.1.get().clone(),
            data.2.get().clone(),
            data.3.get().clone(),
            data.4.get().clone(),
            data.5.get().clone(),
        )
    }

    fn set_query_data(&self, data: &mut Self::Qdata) {
        data.0.overwrite(self.0.clone());
        data.1.overwrite(self.1.clone());
        data.2.overwrite(self.2.clone());
        data.3.overwrite(self.3.clone());
        data.4.overwrite(self.4.clone());
        data.5.overwrite(self.5.clone());
    }

    fn is_changed(data: &Self::Qdata) -> (changed: bool) {
        if data.0.is_changed() {
            return true;
        }
        if data.1.is_changed() {
            return true;
        }
        if data.2.is_changed() {
            return true;
        }
        if data.3.is_changed() {
            return true;
        }
        if data.4.is_changed() {
            return true;
        }
        if data.5.is_changed() {
            return true;
        }
        false
    }
}

impl<T0: Clone, T1: Clone, T2: Clone, T3: Clone, T4: Clone, T5: Clone, T6: Clone> QueryDataOwned for (T0, T1, T2, T3, T4, T5, T6) {
    type Qdata = (Watched<T0>, Watched<T1>, Watched<T2>, Watched<T3>, Watched<T4>, Watched<T5>, Watched<T6>);

    open spec fn projects(data: Self::Qdata, projection: Self) -> bool {
        &&& cloned(data.0.value(), projection.0)
        &&& cloned(data.1.value(), projection.1)
        &&& cloned(data.2.value(), projection.2)
        &&& cloned(data.3.value(), projection.3)
        &&& cloned(data.4.value(), projection.4)
        &&& cloned(data.5.value(), projection.5)
        &&& cloned(data.6.value(), projection.6)
    }

    open spec fn writes(&self, before: Self::Qdata, after: Self::Qdata) -> bool {
        &&& field_written(self.0, before.0, after.0)
        &&& field_written(self.1, before.1, after.1)
        &&& field_written(self.2, before.2, after.2)
        &&& field_written(self.3, before.3, after.3)
        &&& field_written(self.4, before.4, after.4)
        &&& field_written(self.5, before.5, after.5)
        &&& field_written(self.6, before.6, after.6)
    }

    open spec fn changed(data: Self::Qdata) -> bool {
        ||| data.0.changed()
        ||| data.1.changed()
        ||| data.2.changed()
        ||| data.3.changed()
        ||| data.4.changed()
        ||| data.5.changed()
        ||| data.6.changed()
    }

    fn from_query_data(data: &Self::Qdata) -> (projection: Self) {
        (
            data.0.get().clone(),
            data.1.get().clone(),
            data.2.get().clone(),
            data.3.get().clone(),
            data.4.get().clone(),
            data.5.get().clone(),
            data.6.get().clone(),
        )
    }

    fn set_query_data(&self, data: &mut Self::Qdata) {
        data.0.overwrite(self.0.clone());
        data.1.overwrite(self.1.clone());
        data.2.overwrite(self.2.clone());
        data.3.overwrite(self.3.clone());
        data.4.overwrite(self.4.clone());
        data.5.overwrite(self.5.clone());
        data.6.overwrite(self.6.clone());
    }

    fn is_changed(data: &Self::Qdata) -> (changed: bool) {
        if data.0.is_changed() {
            return true;
        }
        if data.1.is_changed() {
            return true;
        }
        if data.2.is_changed() {
            return true;
        }
        if data.3.is_changed() {
            return true;
        }
        if data.4.is_changed() {
            return true;
        }
        if data.5.is_changed() {
            return true;
        }
        if data.6.is_changed() {
            return true;
        }
        false
    }
}

impl<T0: Clone, T1: Clone, T2: Clone, T3: Clone, T4: Clone, T5: Clone, T6: Clone, T7: Clone> QueryDataOwned for (T0, T1, T2, T3, T4, T5, T6, T7) {
    type Qdata = (Watched<T0>, Watched<T1>, Watched<T2>, Watched<T3>, Watched<T4>, Watched<T5>, Watched<T6>, Watched<T7>);

    open spec fn projects(data: Self::Qdata, projection: Self) -> bool {
        &&& cloned(data.0.value(), projection.0)
        &&& cloned(data.1.value(), projection.1)
        &&& cloned(data.2.value(), projection.2)
        &&& cloned(data.3.value(), projection.3)
        &&& cloned(data.4.value(), projection.4)
        &&& cloned(data.5.value(), projection.5)
        &&& cloned(data.6.value(), projection.6)
        &&& cloned(data.7.value(), projection.7)
    }

    open spec fn writes(&self, before: Self::Qdata, after: Self::Qdata) -> bool {
        &&& field_written(self.0, before.0, after.0)
        &&& field_written(self.1, before.1, after.1)
        &&& field_written(self.2, before.2, after.2)
        &&& field_written(self.3, before.3, after.3)
        &&& field_written(self.4, before.4, after.4)
        &&& field_written(self.5, before.5, after.5)
        &&& field_written(self.6, before.6, after.6)
        &&& field_written(self.7, before.7, after.7)
    }

    open spec fn changed(data: Self::Qdata) -> bool {
        ||| data.0.changed()
        ||| data.1.changed()
        ||| data.2.changed()
        ||| data.3.changed()
        ||| data.4.changed()
        ||| data.5.changed()
        ||| data.6.changed()
        ||| data.7.changed()
    }

    fn from_query_data(data: &Self::Qdata) -> (projection: Self) {
        (
            data.0.get().clone(),
            data.1.get().clone(),
            data.2.get().clone(),
            data.3.get().clone(),
            data.4.get().clone(),
            data.5.get().clone(),
            data.6.get().clone(),
            data.7.get().clone(),
        )
    }

    fn set_query_data(&self, data: &mut Self::Qdata) {
        data.0.overwrite(self.0.clone());
        data.1.overwrite(self.1.clone());
        data.2.overwrite(self.2.clone());
        data.3.overwrite(self.3.clone());
        data.4.overwrite(self.4.clone());
        data.5.overwrite(self.5.clone());
        data.6.overwrite(self.6.clone());
        data.7.overwrite(self.7.clone());
    }

    fn is_changed(data: &Self::Qdata) -> (changed: bool) {
        if data.0.is_changed() {
            return true;
        }
        if data.1.is_changed() {
            return true;
        }
        if data.2.is_changed() {
            return true;
        }
        if data.3.is_changed() {
            return true;
        }
        if data.4.is_changed() {
            return true;
        }
        if data.5.is_changed() {
            return true;
        }
        if data.6.is_changed() {
            return true;
        }
        if data.7.is_changed() {
            return true;
        }
        false
    }
}

impl<T0: Clone, T1: Clone, T2: Clone, T3: Clone, T4: Clone, T5: Clone, T6: Clone, T7: Clone, T8: Clone> QueryDataOwned for (T0, T1, T2, T3, T4, T5, T6, T7, T8) {
    type Qdata = (Watched<T0>, Watched<T1>, Watched<T2>, Watched<T3>, Watched<T4>, Watched<T5>, Watched<T6>, Watched<T7>, Watched<T8>);

    open spec fn projects(data: Self::Qdata, projection: Self) -> bool {
        &&& cloned(data.0.value(), projection.0)
        &&& cloned(data.1.value(), projection.1)
        &&& cloned(data.2.value(), projection.2)
        &&& cloned(data.3.value(), projection.3)
        &&& cloned(data.4.value(), projection.4)
        &&& cloned(data.5.value(), projection.5)
        &&& cloned(data.6.value(), projection.6)
        &&& cloned(data.7.value(), projection.7)
        &&& cloned(data.8.value(), projection.8)
    }

    open spec fn writes(&self, before: Self::Qdata, after: Self::Qdata) -> bool {
        &&& field_written(self.0, before.0, after.0)
        &&& field_written(self.1, before.1, after.1)
        &&& field_written(self.2, before.2, after.2)
        &&& field_written(self.3, before.3, after.3)
        &&& field_written(self.4, before.4, after.4)
        &&& field_written(self.5, before.5, after.5)
        &&& field_written(self.6, before.6, after.6)
        &&& field_written(self.7, before.7, after.7)
        &&& field_written(self.8, before.8, after.8)
    }

    open spec fn changed(data: Self::Qdata) -> bool {
        ||| data.0.changed()
        ||| data.1.changed()
        ||| data.2.changed()
        ||| data.3.changed()
        ||| data.4.changed()
        ||| data.5.changed()
        ||| data.6.changed()
        ||| data.7.changed()
        ||| data.8.changed()
    }

    fn from_query_data(data: &Self::Qdata) -> (projection: Self) {
        (
            data.0.get().clone(),
            data.1.get().clone(),
            data.2.get().clone(),
            data.3.get().clone(),
            data.4.get().clone(),
            data.5.get().clone(),
            data.6.get().clone(),
            data.7.get().clone(),
            data.8.get().clone(),
        )
    }

    fn set_query_data(&self, data: &mut Self::Qdata) {
        data.0.overwrite(self.0.clone());
        data.1.overwrite(self.1.clone());
        data.2.overwrite(self.2.clone());
        data.3.overwrite(self.3.clone());
        data.4.overwrite(self.4.clone());
        data.5.overwrite(self.5.clone());
        data.6.overwrite(self.6.clone());
        data.7.overwrite(self.7.clone());
        data.8.overwrite(self.8.clone());
    }

    fn is_changed(data: &Self::Qdata) -> (changed: bool) {
        if data.0.is_changed() {
            return true;
        }
        if data.1.is_changed() {
            return true;
        }
        if data.2.is_changed() {
            return true;
        }
        if data.3.is_changed() {
            return true;
        }
        if data.4.is_changed() {
            return true;
        }
        if data.5.is_changed() {
            return true;
        }
        if data.6.is_changed() {
            return true;
        }
        if data.7.is_changed() {
            return true;
        }
        if data.8.is_changed() {
            return true;
        }
        false
    }
}

impl<T0: Clone, T1: Clone, T2: Clone, T3: Clone, T4: Clone, T5: Clone, T6: Clone, T7: Clone, T8: Clone, T9: Clone> QueryDataOwned for (T0, T1, T2, T3, T4, T5, T6, T7, T8, T9) {
    type Qdata = (Watched<T0>, Watched<T1>, Watched<T2>, Watched<T3>, Watched<T4>, Watched<T5>, Watched<T6>, Watched<T7>, Watched<T8>, Watched<T9>);

    open spec fn projects(data: Self::Qdata, projection: Self) -> bool {
        &&& cloned(data.0.value(), projection.0)
        &&& cloned(data.1.value(), projection.1)
        &&& cloned(data.2.value(), projection.2)
        &&& cloned(data.3.value(), projection.3)
        &&& cloned(data.4.value(), projection.4)
        &&& cloned(data.5.value(), projection.5)
        &&& cloned(data.6.value(), projection.6)
        &&& cloned(data.7.value(), projection.7)
        &&& cloned(data.8.value(), projection.8)
        &&& cloned(data.9.value(), projection.9)
    }

    open spec fn writes(&self, before: Self::Qdata, after: Self::Qdata) -> bool {
        &&& field_written(self.0, before.0, after.0)
        &&& field_written(self.1, before.1, after.1)
        &&& field_written(self.2, before.2, after.2)
        &&& field_written(self.3, before.3, after.3)
        &&& field_written(self.4, before.4, after.4)
        &&& field_written(self.5, before.5, after.5)
        &&& field_written(self.6, before.6, after.6)
        &&& field_written(self.7, before.7, after.7)
        &&& field_written(self.8, before.8, after.8)
        &&& field_written(self.9, before.9, after.9)
    }

    open spec fn changed(data: Self::Qdata) -> bool {
        ||| data.0.changed()
        ||| data.1.changed()
        ||| data.2.changed()
        ||| data.3.changed()
        ||| data.4.changed()
        ||| data.5.changed()
        ||| data.6.changed()
        ||| data.7.changed()
        ||| data.8.changed()
        ||| data.9.changed()
    }

    fn from_query_data(data: &Self::Qdata) -> (projection: Self) {
        (
            data.0.get().clone(),
            data.1.get().clone(),
            data.2.get().clone(),
            data.3.get().clone(),
            data.4.get().clone(),
            data.5.get().clone(),
            data.6.get().clone(),
            data.7.get().clone(),
            data.8.get().clone(),
            data.9.get().clone(),
        )
    }

    fn set_query_data(&self, data: &mut Self::Qdata) {
        data.0.overwrite(self.0.clone());
        data.1.overwrite(self.1.clone());
        data.2.overwrite(self.2.clone());
        data.3.overwrite(self.3.clone());
        data.4.overwrite(self.4.clone());
        data.5.overwrite(self.5.clone());
        data.6.overwrite(self.6.clone());
        data.7.overwrite(self.7.clone());
        data.8.overwrite(self.8.clone());
        data.9.overwrite(self.9.clone());
    }

    fn is_changed(data: &Self::Qdata) -> (changed: bool) {
        if data.0.is_changed() {
            return true;
        }
        if data.1.is_changed() {
            return true;
        }
        if data.2.is_changed() {
            return true;
        }
        if data.3.is_changed() {
            return true;
        }
        if data.4.is_changed() {
            return true;
        }
        if data.5.is_changed() {
            return true;
        }
        if data.6.is_changed() {
            return true;
        }
        if data.7.is_changed() {
            return true;
        }
        if data.8.is_changed() {
            return true;
        }
        if data.9.is_changed() {
            return true;
        }
        false
    }
}

impl<T0: Clone, T1: Clone, T2: Clone, T3: Clone, T4: Clone, T5: Clone, T6: Clone, T7: Clone, T8: Clone, T9: Clone, T10: Clone> QueryDataOwned for (T0, T1, T2, T3, T4, T5, T6, T7, T8, T9, T10) {
    type Qdata = (Watched<T0>, Watched<T1>, Watched<T2>, Watched<T3>, Watched<T4>, Watched<T5>, Watched<T6>, Watched<T7>, Watched<T8>, Watched<T9>, Watched<T10>);

    open spec fn projects(data: Self::Qdata, projection: Self) -> bool {
        &&& cloned(data.0.value(), projection.0)
        &&& cloned(data.1.value(), projection.1)
        &&& cloned(data.2.value(), projection.2)
        &&& cloned(data.3.value(), projection.3)
        &&& cloned(data.4.value(), projection.4)
        &&& cloned(data.5.value(), projection.5)
        &&& cloned(data.6.value(), projection.6)
        &&& cloned(data.7.value(), projection.7)
        &&& cloned(data.8.value(), projection.8)
        &&& cloned(data.9.value(), projection.9)
        &&& cloned(data.10.value(), projection.10)
    }

    open spec fn writes(&self, before: Self::Qdata, after: Self::Qdata) -> bool {
        &&& field_written(self.0, before.0, after.0)
        &&& field_written(self.1, before.1, after.1)
        &&& field_written(self.2, before.2, after.2)
        &&& field_written(self.3, before.3, after.3)
        &&& field_written(self.4, before.4, after.4)
        &&& field_written(self.5, before.5, after.5)
        &&& field_written(self.6, before.6, after.6)
        &&& field_written(self.7, before.7, after.7)
        &&& field_written(self.8, before.8, after.8)
        &&& field_written(self.9, before.9, after.9)
        &&& field_written(self.10, before.10, after.10)
    }

    open spec fn changed(data: Self::Qdata) -> bool {
        ||| data.0.changed()
        ||| data.1.changed()
        ||| data.2.changed()
        ||| data.3.changed()
        ||| data.4.changed()
        ||| data.5.changed()
        ||| data.6.changed()
        ||| data.7.changed()
        ||| data.8.changed()
        ||| data.9.changed()
        ||| data.10.changed()
    }

    fn from_query_data(data: &Self::Qdata) -> (projection: Self) {
        (
            data.0.get().clone(),
            data.1.get().clone(),
            data.2.get().clone(),
            data.3.get().clone(),
            data.4.get().clone(),
            data.5.get().clone(),
            data.6.get().clone(),
            data.7.get().clone(),
            data.8.get().clone(),
            data.9.get().clone(),
            data.10.get().clone(),
        )
    }

    fn set_query_data(&self, data: &mut Self::Qdata) {
        data.0.overwrite(self.0.clone());
        data.1.overwrite(self.1.clone());
        data.2.overwrite(self.2.clone());
        data.3.overwrite(self.3.clone());
        data.4.overwrite(self.4.clone());
        data.5.overwrite(self.5.clone());
        data.6.overwrite(self.6.clone());
        data.7.overwrite(self.7.clone());
        data.8.overwrite(self.8.clone());
        data.9.overwrite(self.9.clone());
        data.10.overwrite(self.10.clone());
    }

    fn is_changed(data: &Self::Qdata) -> (changed: bool) {
        if data.0.is_changed() {
            return true;
        }
        if data.1.is_changed() {
            return true;
        }
        if data.2.is_changed() {
            return true;
        }
        if data.3.is_changed() {
            return true;
        }
        if data.4.is_changed() {
            return true;
        }
        if data.5.is_changed() {
            return true;
        }
        if data.6.is_changed() {
            return true;
        }
        if data.7.is_changed() {
            return true;
        }
        if data.8.is_changed() {
            return true;
        }
        if data.9.is_changed() {
            return true;
        }
        if data.10.is_changed() {
            return true;
        }
        false
    }
}

impl<T0: Clone, T1: Clone, T2: Clone, T3: Clone, T4: Clone, T5: Clone, T6: Clone, T7: Clone, T8: Clone, T9: Clone, T10: Clone, T11: Clone> QueryDataOwned for (T0, T1, T2, T3, T4, T5, T6, T7, T8, T9, T10, T11) {
    type Qdata = (Watched<T0>, Watched<T1>, Watched<T2>, Watched<T3>, Watched<T4>, Watched<T5>, Watched<T6>, Watched<T7>, Watched<T8>, Watched<T9>, Watched<T10>, Watched<T11>);

    open spec fn projects(data: Self::Qdata, projection: Self) -> bool {
        &&& cloned(data.0.value(), projection.0)
        &&& cloned(data.1.value(), projection.1)
        &&& cloned(data.2.value(), projection.2)
        &&& cloned(data.3.value(), projection.3)
        &&& cloned(data.4.value(), projection.4)
        &&& cloned(data.5.value(), projection.5)
        &&& cloned(data.6.value(), projection.6)
        &&& cloned(data.7.value(), projection.7)
        &&& cloned(data.8.value(), projection.8)
        &&& cloned(data.9.value(), projection.9)
        &&& cloned(data.10.value(), projection.10)
        &&& cloned(data.11.value(), projection.11)
    }

    open spec fn writes(&self, before: Self::Qdata, after: Self::Qdata) -> bool {
        &&& field_written(self.0, before.0, after.0)
        &&& field_written(self.1, before.1, after.1)
        &&& field_written(self.2, before.2, after.2)
        &&& field_written(self.3, before.3, after.3)
        &&& field_written(self.4, before.4, after.4)
        &&& field_written(self.5, before.5, after.5)
        &&& field_written(self.6, before.6, after.6)
        &&& field_written(self.7, before.7, after.7)
        &&& field_written(self.8, before.8, after.8)
        &&& field_written(self.9, before.9, after.9)
        &&& field_written(self.10, before.10, after.10)
        &&& field_written(self.11, before.11, after.11)
    }

    open spec fn changed(data: Self::Qdata) -> bool {
        ||| data.0.changed()
        ||| data.1.changed()
        ||| data.2.changed()
        ||| data.3.changed()
        ||| data.4.changed()
        ||| data.5.changed()
        ||| data.6.changed()
        ||| data.7.changed()
        ||| data.8.changed()
        ||| data.9.changed()
        ||| data.10.changed()
        ||| data.11.changed()
    }

    fn from_query_data(data: &Self::Qdata) -> (projection: Self) {
        (
            data.0.get().clone(),
            data.1.get().clone(),
            data.2.get().clone(),
            data.3.get().clone(),
            data.4.get().clone(),
            data.5.get().clone(),
            data.6.get().clone(),
            data.7.get().clone(),
            data.8.get().clone(),
            data.9.get().clone(),
            data.10.get().clone(),
            data.11.get().clone(),
        )
    }

    fn set_query_data(&self, data: &mut Self::Qdata) {
        data.0.overwrite(self.0.clone());
        data.1.overwrite(self.1.clone());
        data.2.overwrite(self.2.clone());
        data.3.overwrite(self.3.clone());
        data.4.overwrite(self.4.clone());
        data.5.overwrite(self.5.clone());
        data.6.overwrite(self.6.clone());
        data.7.overwrite(self.7.clone());
        data.8.overwrite(self.8.clone());
        data.9.overwrite(self.9.clone());
        data.10.overwrite(self.10.clone());
        data.11.overwrite(self.11.clone());
    }

    fn is_changed(data: &Self::Qdata) -> (changed: bool) {
        if data.0.is_changed() {
            return true;
        }
        if data.1.is_changed() {
            return true;
        }
        if data.2.is_changed() {
            return true;
        }
        if data.3.is_changed() {
            return true;
        }
        if data.4.is_changed() {
            return true;
        }
        if data.5.is_changed() {
            return true;
        }
        if data.6.is_changed() {
            return true;
        }
        if data.7.is_changed() {
            return true;
        }
        if data.8.is_changed() {
            return true;
        }
        if data.9.is_changed() {
            return true;
        }
        if data.10.is_changed() {
            return true;
        }
        if data.11.is_changed() {
            return true;
        }
        false
    }
}

impl<T0: Clone, T1: Clone, T2: Clone, T3: Clone, T4: Clone, T5: Clone, T6: Clone, T7: Clone, T8: Clone, T9: Clone, T10: Clone, T11: Clone, T12: Clone> QueryDataOwned for (T0, T1, T2, T3, T4, T5, T6, T7, T8, T9, T10, T11, T12) {
    type Qdata = (Watched<T0>, Watched<T1>, Watched<T2>, Watched<T3>, Watched<T4>, Watched<T5>, Watched<T6>, Watched<T7>, Watched<T8>, Watched<T9>, Watched<T10>, Watched<T11>, Watched<T12>);

    open spec fn projects(data: Self::Qdata, projection: Self) -> bool {
        &&& cloned(data.0.value(), projection.0)
        &&& cloned(data.1.value(), projection.1)
        &&& cloned(data.2.value(), projection.2)
        &&& cloned(data.3.value(), projection.3)
        &&& cloned(data.4.value(), projection.4)
        &&& cloned(data.5.value(), projection.5)
        &&& cloned(data.6.value(), projection.6)
        &&& cloned(data.7.value(), projection.7)
        &&& cloned(data.8.value(), projection.8)
        &&& cloned(data.9.value(), projection.9)
        &&& cloned(data.10.value(), projection.10)
        &&& cloned(data.11.value(), projection.11)
        &&& cloned(data.12.value(), projection.12)
    }

    open spec fn writes(&self, before: Self::Qdata, after: Self::Qdata) -> bool {
        &&& field_written(self.0, before.0, after.0)
        &&& field_written(self.1, before.1, after.1)
        &&& field_written(self.2, before.2, after.2)
        &&& field_written(self.3, before.3, after.3)
        &&& field_written(self.4, before.4, after.4)
        &&& field_written(self.5, before.5, after.5)
        &&& field_written(self.6, before.6, after.6)
        &&& field_written(self.7, before.7, after.7)
        &&& field_written(self.8, before.8, after.8)
        &&& field_written(self.9, before.9, after.9)
        &&& field_written(self.10, before.10, after.10)
        &&& field_written(self.11, before.11, after.11)
        &&& field_written(self.12, before.12, after.12)
    }

    open spec fn changed(data: Self::Qdata) -> bool {
        ||| data.0.changed()
        ||| data.1.changed()
        ||| data.2.changed()
        ||| data.3.changed()
        ||| data.4.changed()
        ||| data.5.changed()
        ||| data.6.changed()
        ||| data.7.changed()
        ||| data.8.changed()
        ||| data.9.changed()
        ||| data.10.changed()
        ||| data.11.changed()
        ||| data.12.changed()
    }

    fn from_query_data(data: &Self::Qdata) -> (projection: Self) {
        (
            data.0.get().clone(),
            data.1.get().clone(),
            data.2.get().clone(),
            data.3.get().clone(),
            data.4.get().clone(),
            data.5.get().clone(),
            data.6.get().clone(),
            data.7.get().clone(),
            data.8.get().clone(),
            data.9.get().clone(),
            data.10.get().clone(),
            data.11.get().clone(),
            data.12.get().clone(),
        )
    }

    fn set_query_data(&self, data: &mut Self::Qdata) {
        data.0.overwrite(self.0.clone());
        data.1.overwrite(self.1.clone());
        data.2.overwrite(self.2.clone());
        data.3.overwrite(self.3.clone());
        data.4.overwrite(self.4.clone());
        data.5.overwrite(self.5.clone());
        data.6.overwrite(self.6.clone());
        data.7.overwrite(self.7.clone());
        data.8.overwrite(self.8.clone());
        data.9.overwrite(self.9.clone());
        data.10.overwrite(self.10.clone());
        data.11.overwrite(self.11.clone());
        data.12.overwrite(self.12.clone());
    }

    fn is_changed(data: &Self::Qdata) -> (changed: bool) {
        if data.0.is_changed() {
            return true;
        }
        if data.1.is_changed() {
            return true;
        }
        if data.2.is_changed() {
            return true;
        }
        if data.3.is_changed() {
            return true;
        }
        if data.4.is_changed() {
            return true;
        }
        if data.5.is_changed() {
            return true;
        }
        if data.6.is_changed() {
            return true;
        }
        if data.7.is_changed() {
            return true;
        }
        if data.8.is_changed() {
            return true;
        }
        if data.9.is_changed() {
            return true;
        }
        if data.10.is_changed() {
            return true;
        }
        if data.11.is_changed() {
            return true;
        }
        if data.12.is_changed() {
            return true;
        }
        false
    }
}

impl<T0: Clone, T1: Clone, T2: Clone, T3: Clone, T4: Clone, T5: Clone, T6: Clone, T7: Clone, T8: Clone, T9: Clone, T10: Clone, T11: Clone, T12: Clone, T13: Clone> QueryDataOwned for (T0, T1, T2, T3, T4, T5, T6, T7, T8, T9, T10, T11, T12, T13) {
    type Qdata = (Watched<T0>, Watched<T1>, Watched<T2>, Watched<T3>, Watched<T4>, Watched<T5>, Watched<T6>, Watched<T7>, Watched<T8>, Watched<T9>, Watched<T10>, Watched<T11>, Watched<T12>, Watched<T13>);

    open spec fn projects(data: Self::Qdata, projection: Self) -> bool {
        &&& cloned(data.0.value(), projection.0)
        &&& cloned(data.1.value(), projection.1)
        &&& cloned(data.2.value(), projection.2)
        &&& cloned(data.3.value(), projection.3)
        &&& cloned(data.4.value(), projection.4)
        &&& cloned(data.5.value(), projection.5)
        &&& cloned(data.6.value(), projection.6)
        &&& cloned(data.7.value(), projection.7)
        &&& cloned(data.8.value(), projection.8)
        &&& cloned(data.9.value(), projection.9)
        &&& cloned(data.10.value(), projection.10)
        &&& cloned(data.11.value(), projection.11)
        &&& cloned(data.12.value(), projection.12)
        &&& cloned(data.13.value(), projection.13)
    }

    open spec fn writes(&self, before: Self::Qdata, after: Self::Qdata) -> bool {
        &&& field_written(self.0, before.0, after.0)
        &&& field_written(self.1, before.1, after.1)
        &&& field_written(self.2, before.2, after.2)
        &&& field_written(self.3, before.3, after.3)
        &&& field_written(self.4, before.4, after.4)
        &&& field_written(self.5, before.5, after.5)
        &&& field_written(self.6, before.6, after.6)
        &&& field_written(self.7, before.7, after.7)
        &&& field_written(self.8, before.8, after.8)
        &&& field_written(self.9, before.9, after.9)
        &&& field_written(self.10, before.10, after.10)
        &&& field_written(self.11, before.11, after.11)
        &&& field_written(self.12, before.12, after.12)
        &&& field_written(self.13, before.13, after.13)
    }

    open spec fn changed(data: Self::Qdata) -> bool {
        ||| data.0.changed()
        ||| data.1.changed()
        ||| data.2.changed()
        ||| data.3.changed()
        ||| data.4.changed()
        ||| data.5.changed()
        ||| data.6.changed()
        ||| data.7.changed()
        ||| data.8.changed()
        ||| data.9.changed()
        ||| data.10.changed()
        ||| data.11.changed()
        ||| data.12.changed()
        ||| data.13.changed()
    }

    fn from_query_data(data: &Self::Qdata) -> (projection: Self) {
        (
            data.0.get().clone(),
            data.1.get().clone(),
            data.2.get().clone(),
            data.3.get().clone(),
            data.4.get().clone(),
            data.5.get().clone(),
            data.6.get().clone(),
            data.7.get().clone(),
            data.8.get().clone(),
            data.9.get().clone(),
            data.10.get().clone(),
            data.11.get().clone(),
            data.12.get().clone(),
            data.13.get().clone(),
        )
    }

    fn set_query_data(&self, data: &mut Self::Qdata) {
        data.0.overwrite(self.0.clone());
        data.1.overwrite(self.1.clone());
        data.2.overwrite(self.2.clone());
        data.3.overwrite(self.3.clone());
        data.4.overwrite(self.4.clone());
        data.5.overwrite(self.5.clone());
        data.6.overwrite(self.6.clone());
        data.7.overwrite(self.7.clone());
        data.8.overwrite(self.8.clone());
        data.9.overwrite(self.9.clone());
        data.10.overwrite(self.10.clone());
        data.11.overwrite(self.11.clone());
        data.12.overwrite(self.12.clone());
        data.13.overwrite(self.13.clone());
    }

    fn is_changed(data: &Self::Qdata) -> (changed: bool) {
        if data.0.is_changed() {
            return true;
        }
        if data.1.is_changed() {
            return true;
        }
        if data.2.is_changed() {
            return true;
        }
        if data.3.is_changed() {
            return true;
        }
        if data.4.is_changed() {
            return true;
        }
        if data.5.is_changed() {
            return true;
        }
        if data.6.is_changed() {
            return true;
        }
        if data.7.is_changed() {
            return true;
        }
        if data.8.is_changed() {
            return true;
        }
        if data.9.is_changed() {
            return true;
        }
        if data.10.is_changed() {
            return true;
        }
        if data.11.is_changed() {
            return true;
        }
        if data.12.is_changed() {
            return true;
        }
        if data.13.is_changed() {
            return true;
        }
        false
    }
}

impl<T0: Clone, T1: Clone, T2: Clone, T3: Clone, T4: Clone, T5: Clone, T6: Clone, T7: Clone, T8: Clone, T9: Clone, T10: Clone, T11: Clone, T12: Clone, T13: Clone, T14: Clone> QueryDataOwned for (T0, T1, T2, T3, T4, T5, T6, T7, T8, T9, T10, T11, T12, T13, T14) {
    type Qdata = (Watched<T0>, Watched<T1>, Watched<T2>, Watched<T3>, Watched<T4>, Watched<T5>, Watched<T6>, Watched<T7>, Watched<T8>, Watched<T9>, Watched<T10>, Watched<T11>, Watched<T12>, Watched<T13>, Watched<T14>);

    open spec fn projects(data: Self::Qdata, projection: Self) -> bool {
        &&& cloned(data.0.value(), projection.0)
        &&& cloned(data.1.value(), projection.1)
        &&& cloned(data.2.value(), projection.2)
        &&& cloned(data.3.value(), projection.3)
        &&& cloned(data.4.value(), projection.4)
        &&& cloned(data.5.value(), projection.5)
        &&& cloned(data.6.value(), projection.6)
        &&& cloned(data.7.value(), projection.7)
        &&& cloned(data.8.value(), projection.8)
        &&& cloned(data.9.value(), projection.9)
        &&& cloned(data.10.value(), projection.10)
        &&& cloned(data.11.value(), projection.11)
        &&& cloned(data.12.value(), projection.12)
        &&& cloned(data.13.value(), projection.13)
        &&& cloned(data.14.value(), projection.14)
    }

    open spec fn writes(&self, before: Self::Qdata, after: Self::Qdata) -> bool {
        &&& field_written(self.0, before.0, after.0)
        &&& field_written(self.1, before.1, after.1)
        &&& field_written(self.2, before.2, after.2)
        &&& field_written(self.3, before.3, after.3)
        &&& field_written(self.4, before.4, after.4)
        &&& field_written(self.5, before.5, after.5)
        &&& field_written(self.6, before.6, after.6)
        &&& field_written(self.7, before.7, after.7)
        &&& field_written(self.8, before.8, after.8)
        &&& field_written(self.9, before.9, after.9)
        &&& field_written(self.10, before.10, after.10)
        &&& field_written(self.11, before.11, after.11)
        &&& field_written(self.12, before.12, after.12)
        &&& field_written(self.13, before.13, after.13)
        &&& field_written(self.14, before.14, after.14)
    }

    open spec fn changed(data: Self::Qdata) -> bool {
        ||| data.0.changed()
        ||| data.1.changed()
        ||| data.2.changed()
        ||| data.3.changed()
        ||| data.4.changed()
        ||| data.5.changed()
        ||| data.6.changed()
        ||| data.7.changed()
        ||| data.8.changed()
        ||| data.9.changed()
        ||| data.10.changed()
        ||| data.11.changed()
        ||| data.12.changed()
        ||| data.13.changed()
        ||| data.14.changed()
    }

    fn from_query_data(data: &Self::Qdata) -> (projection: Self) {
        (
            data.0.get().clone(),
            data.1.get().clone(),
            data.2.get().clone(),
            data.3.get().clone(),
            data.4.get().clone(),
            data.5.get().clone(),
            data.6.get().clone(),
            data.7.get().clone(),
            data.8.get().clone(),
            data.9.get().clone(),
            data.10.get().clone(),
            data.11.get().clone(),
            data.12.get().clone(),
            data.13.get().clone(),
            data.14.get().clone(),
        )
    }

    fn set_query_data(&self, data: &mut Self::Qdata) {
        data.0.overwrite(self.0.clone());
        data.1.overwrite(self.1.clone());
        data.2.overwrite(self.2.clone());
        data.3.overwrite(self.3.clone());
        data.4.overwrite(self.4.clone());
        data.5.overwrite(self.5.clone());
        data.6.overwrite(self.6.clone());
        data.7.overwrite(self.7.clone());
        data.8.overwrite(self.8.clone());
        data.9.overwrite(self.9.clone());
        data.10.overwrite(self.10.clone());
        data.11.overwrite(self.11.clone());
        data.12.overwrite(self.12.clone());
        data.13.overwrite(self.13.clone());
        data.14.overwrite(self.14.clone());
    }

    fn is_changed(data: &Self::Qdata) -> (changed: bool) {
        if data.0.is_changed() {
            return true;
        }
        if data.1.is_changed() {
            return true;
        }
        if data.2.is_changed() {
            return true;
        }
        if data.3.is_changed() {
            return true;
        }
        if data.4.is_changed() {
            return true;
        }
        if data.5.is_changed() {
            return true;
        }
        if data.6.is_changed() {
            return true;
        }
        if data.7.is_changed() {
            return true;
        }
        if data.8.is_changed() {
            return true;
        }
        if data.9.is_changed() {
            return true;
        }
        if data.10.is_changed() {
            return true;
        }
        if data.11.is_changed() {
            return true;
        }
        if data.12.is_changed() {
            return true;
        }
        if data.13.is_changed() {
            return true;
        }
        if data.14.is_changed() {
            return true;
        }
        false
    }
}

} // verus!
