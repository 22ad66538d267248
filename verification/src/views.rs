use vstd::prelude::*;
use crate::date::Date;
use crate::partners::Partner;
use crate::product_types::ProductType;
use crate::products::Product;

verus! {

/// The closed set of screens the application can show. History is kept in
/// terms of these tags alone: a screen's transient state lives in the side
/// table below, not in the history stacks.
#[derive(Clone, Copy, PartialEq, Eq, Structural, Debug)]
pub enum Views {
    MainView,
    Partners,
    Sales,
    Products,
}

/// In-progress fields of the partner form.
pub struct PartnersForm {
    pub partner_type: String,
    pub partner_name: String,
    pub director: String,
    pub email: String,
    pub phone: String,
    pub legal_address: String,
    pub inn: String,
    pub rating: i64,
}

impl PartnersForm {
    /// Whether no field has been filled in yet.
    pub open spec fn is_blank(self) -> bool {
        &&& self.partner_type@.len() == 0
        &&& self.partner_name@.len() == 0
        &&& self.director@.len() == 0
        &&& self.email@.len() == 0
        &&& self.phone@.len() == 0
        &&& self.legal_address@.len() == 0
        &&& self.inn@.len() == 0
        &&& self.rating == 0
    }
}

impl Default for PartnersForm {
    /// An untouched partner form.
    fn default() -> (blank: Self)
        ensures
            blank.is_blank(),
    {
        PartnersForm {
            partner_type: String::new(),
            partner_name: String::new(),
            director: String::new(),
            email: String::new(),
            phone: String::new(),
            legal_address: String::new(),
            inn: String::new(),
            rating: 0,
        }
    }
}

/// In-progress fields of the sale form.
pub struct SalesForm {
    pub product: Option<Product>,
    pub quantity: i64,
    pub sale_date: Date,
    pub partner: Option<Partner>,
}

impl SalesForm {
    /// Whether no field has been filled in yet; the date rests on the epoch
    /// day until the user picks one.
    pub open spec fn is_blank(self) -> bool {
        &&& self.product is None
        &&& self.quantity == 0
        &&& self.sale_date == (Date { year: 1970, ordinal: 1u16 })
        &&& self.partner is None
    }
}

impl Default for SalesForm {
    /// An untouched sale form.
    fn default() -> (blank: Self)
        ensures
            blank.is_blank(),
    {
        SalesForm { product: None, quantity: 0, sale_date: Date::default(), partner: None }
    }
}

/// In-progress fields of the product form.
pub struct ProductsForm {
    pub product_type: Option<ProductType>,
    pub product_name: String,
    pub article_number: String,
    pub minimum_cost: i64,
}

impl ProductsForm {
    /// Whether no field has been filled in yet.
    pub open spec fn is_blank(self) -> bool {
        &&& self.product_type is None
        &&& self.product_name@.len() == 0
        &&& self.article_number@.len() == 0
        &&& self.minimum_cost == 0
    }
}

/// In-progress fields of the product-category form.
pub struct ProductTypesForm {
    pub product_type: String,
    pub coefficient_bits: u64,
}

impl ProductTypesForm {
    /// Whether no field has been filled in yet.
    pub open spec fn is_blank(self) -> bool {
        &&& self.product_type@.len() == 0
        &&& self.coefficient_bits == 0
    }
}

/// Transient state of the partners screen: its dismissible error surface and
/// its form, each with an open/closed flag.
pub struct PartnersViewData {
    pub error: (bool, String),
    pub form: (bool, PartnersForm),
}

impl PartnersViewData {
    /// Whether the screen shows no error and an unopened, blank form.
    pub open spec fn is_fresh(self) -> bool {
        &&& self.error.0 == false
        &&& self.error.1@.len() == 0
        &&& self.form.0 == false
        &&& self.form.1.is_blank()
    }
}

/// Transient state of the sales screen.
pub struct SalesViewData {
    pub error: (bool, String),
    pub form: (bool, SalesForm),
}

impl SalesViewData {
    /// Whether the screen shows no error and an unopened, blank form.
    pub open spec fn is_fresh(self) -> bool {
        &&& self.error.0 == false
        &&& self.error.1@.len() == 0
        &&& self.form.0 == false
        &&& self.form.1.is_blank()
    }
}

/// Transient state of the products screen, which owns two forms: one for
/// products and one for product categories.
pub struct ProductsViewData {
    pub error: (bool, String),
    pub products_form: (bool, ProductsForm),
    pub product_types_form: (bool, ProductTypesForm),
}

impl ProductsViewData {
    /// Whether the screen shows no error and two unopened, blank forms.
    pub open spec fn is_fresh(self) -> bool {
        &&& self.error.0 == false
        &&& self.error.1@.len() == 0
        &&& self.products_form.0 == false
        &&& self.products_form.1.is_blank()
        &&& self.product_types_form.0 == false
        &&& self.product_types_form.1.is_blank()
    }
}

impl Default for ProductsViewData {
    /// An untouched products screen.
    fn default() -> (fresh: Self)
        ensures
            fresh.is_fresh(),
    {
        ProductsViewData {
            error: (false, String::new()),
            products_form: (
                false,
                ProductsForm {
                    product_type: None,
                    product_name: String::new(),
                    article_number: String::new(),
                    minimum_cost: 0,
                },
            ),
            product_types_form: (
                false,
                ProductTypesForm { product_type: String::new(), coefficient_bits: 0 },
            ),
        }
    }
}

/// The side table of per-screen transient state, keyed by the view tag. The
/// history stacks never copy this: navigating away and back always presents
/// the screen's state as it stands here.
pub struct ViewsData {
    pub partners_view: PartnersViewData,
    pub sales_views: SalesViewData,
    pub products_view: ProductsViewData,
}

impl ViewsData {
    /// Whether every screen is untouched: no errors shown, no forms open.
    pub open spec fn is_fresh(self) -> bool {
        &&& self.partners_view.is_fresh()
        &&& self.sales_views.is_fresh()
        &&& self.products_view.is_fresh()
    }

    /// The error slot owned by `view`: every screen but the main one has one.
    pub open spec fn spec_error_slot(self, view: Views) -> Option<(bool, String)> {
        match view {
            Views::MainView => None,
            Views::Partners => Some(self.partners_view.error),
            Views::Sales => Some(self.sales_views.error),
            Views::Products => Some(self.products_view.error),
        }
    }

    /// Capture `message` into `view`'s error slot and make it visible. The
    /// main screen owns no slot, so reporting there changes nothing; no other
    /// screen's state is touched either way.
    pub fn report_error(&mut self, view: Views, message: String)
        ensures
            view is MainView ==> *final(self) == *old(self),
            !(view is MainView) ==> final(self).spec_error_slot(view) == Some((true, message)),
            view is Partners ==> (*final(self) == (ViewsData {
                partners_view: (PartnersViewData {
                    error: (true, message),
                    form: old(self).partners_view.form,
                }),
                ..*old(self)
            })),
            view is Sales ==> (*final(self) == (ViewsData {
                sales_views: (SalesViewData {
                    error: (true, message),
                    form: old(self).sales_views.form,
                }),
                ..*old(self)
            })),
            view is Products ==> (*final(self) == (ViewsData {
                products_view: (ProductsViewData {
                    error: (true, message),
                    products_form: old(self).products_view.products_form,
                    product_types_form: old(self).products_view.product_types_form,
                }),
                ..*old(self)
            })),
    {
        match view {
            Views::MainView => {},
            Views::Partners => {
                self.partners_view.error = (true, message);
            },
            Views::Sales => {
                self.sales_views.error = (true, message);
            },
            Views::Products => {
                self.products_view.error = (true, message);
            },
        }
    }

    /// Dismiss `view`'s error surface: visibility is cleared, and no error
    /// history is retained beyond the message already in the slot.
    pub fn dismiss_error(&mut self, view: Views)
        ensures
            view is MainView ==> *final(self) == *old(self),
            !(view is MainView) ==> (final(self).spec_error_slot(view) matches Some(slot)
                && slot.0 == false && slot.1 == (old(self).spec_error_slot(view)->0).1),
            view is Partners ==> (*final(self) == (ViewsData {
                partners_view: (PartnersViewData {
                    error: (false, old(self).partners_view.error.1),
                    form: old(self).partners_view.form,
                }),
                ..*old(self)
            })),
            view is Sales ==> (*final(self) == (ViewsData {
                sales_views: (SalesViewData {
                    error: (false, old(self).sales_views.error.1),
                    form: old(self).sales_views.form,
                }),
                ..*old(self)
            })),
            view is Products ==> (*final(self) == (ViewsData {
                products_view: (ProductsViewData {
                    error: (false, old(self).products_view.error.1),
                    products_form: old(self).products_view.products_form,
                    product_types_form: old(self).products_view.product_types_form,
                }),
                ..*old(self)
            })),
    {
        match view {
            Views::MainView => {},
            Views::Partners => {
                self.partners_view.error.0 = false;
            },
            Views::Sales => {
                self.sales_views.error.0 = false;
            },
            Views::Products => {
                self.products_view.error.0 = false;
            },
        }
    }
}

impl Default for ViewsData {
    /// The side table at process start: every screen untouched.
    fn default() -> (fresh: Self)
        ensures
            fresh.is_fresh(),
    {
        ViewsData {
            partners_view: PartnersViewData {
                error: (false, String::new()),
                form: (false, PartnersForm::default()),
            },
            sales_views: SalesViewData {
                error: (false, String::new()),
                form: (false, SalesForm::default()),
            },
            products_view: ProductsViewData::default(),
        }
    }
}

} // verus!
