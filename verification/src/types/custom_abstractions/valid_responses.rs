use vstd::prelude::*;

verus! {

/// enum of the responses the http server knows how to encode to send to the client
#[derive(Debug)]
pub enum ValidResponse<T> {
    String(String),
    Vec(T),
}

/// The abstract value of a response body.
pub enum ResponseBodyView<V> {
    String(Seq<char>),
    Vec(V),
}

impl<T: View> View for ValidResponse<T> {
    type V = ResponseBodyView<T::V>;

    open spec fn view(&self) -> ResponseBodyView<T::V> {
        match self {
            ValidResponse::String(s) => ResponseBodyView::String(s@),
            ValidResponse::Vec(v) => ResponseBodyView::Vec(v@),
        }
    }
}

} // verus!
