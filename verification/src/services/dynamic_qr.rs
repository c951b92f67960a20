//! Dynamic QR codes: the request, its builder, and the reply.
//!
//! A request passes through three stages. A [`DynamicQRBuilder`] gathers
//! the fields; [`DynamicQRBuilder::build`] turns it into a [`DynamicQR`], which
//! can no longer change; [`DynamicQR::send`] consumes that and gives the
//! exchange to perform. Nothing leads back from a later stage to an earlier
//! one.

use vstd::prelude::*;
use vstd::std_specs::convert::FromSpecImpl;
use crate::client::{Mpesa, MpesaView};
use crate::constants::{lemma_code_converts_back, spec_convert, TransactionType};
use crate::environment::Environment;
use crate::errors::{
    spec_error_payload, ApiError, AuthFailure, AuthFailureView, BuilderError, MpesaError,
    MpesaErrorView, MpesaResult,
};
use crate::http::{
    is_success, Authorization, AuthorizationView, HttpReply, HttpReplyView, HttpRequest,
    HttpRequestView, Method,
};
use crate::wire::{
    lemma_get_skips, number_field, spec_get, spec_text, text_field, WireFieldView, WireObject,
    WireValueView,
};

verus! {

/// The path of the QR endpoint, below the base URL.
pub const DYNAMIC_QR_URL: &'static str = "/mpesa/qrcode/v1/generate";

/// The payload of a QR-code request. It never holds a credential: the bearer
/// token is attached when the request is sent.
///
/// All fields are public, so a value can be written down directly, without
/// the builder and without its checks.
#[derive(Debug, Clone, PartialEq, Eq)]
pub struct DynamicQRRequest<'mpesa> {
    /// Name of the company or merchant.
    pub merchant_name: &'mpesa str,
    /// Transaction reference number.
    pub ref_no: &'mpesa str,
    /// The total amount of the transaction, in whole currency units.
    pub amount: u64,
    /// The kind of transaction.
    pub transaction_type: TransactionType,
    /// Credit party identifier: a mobile number, business number, agent till,
    /// paybill or merchant buy-goods number.
    pub credit_party_identifier: &'mpesa str,
    /// Size of the QR code image in pixels; the image is always square.
    pub size: &'mpesa str,
}

/// The contents of a [`DynamicQRRequest`].
pub struct DynamicQRRequestView {
    pub merchant_name: Seq<char>,
    pub ref_no: Seq<char>,
    pub amount: u64,
    pub transaction_type: TransactionType,
    pub credit_party_identifier: Seq<char>,
    pub size: Seq<char>,
}

impl<'mpesa> View for DynamicQRRequest<'mpesa> {
    type V = DynamicQRRequestView;

    open spec fn view(&self) -> DynamicQRRequestView {
        DynamicQRRequestView {
            merchant_name: self.merchant_name@,
            ref_no: self.ref_no@,
            amount: self.amount,
            transaction_type: self.transaction_type,
            credit_party_identifier: self.credit_party_identifier@,
            size: self.size@,
        }
    }
}

/// The wire form of a request: its six fields, in this order, under the wire
/// keys `MerchantName`, `RefNo`, `Amount`, `TrxCode`, `CPI` and `Size`. The
/// transaction type stands as its two-letter code.
pub open spec fn spec_wire(request: DynamicQRRequestView) -> Seq<WireFieldView> {
    seq![
        text_field("MerchantName"@, request.merchant_name),
        text_field("RefNo"@, request.ref_no),
        number_field("Amount"@, request.amount),
        text_field("TrxCode"@, request.transaction_type.spec_code()),
        text_field("CPI"@, request.credit_party_identifier),
        text_field("Size"@, request.size),
    ]
}

impl<'mpesa> DynamicQRRequest<'mpesa> {
    /// The wire form of this request.
    pub fn to_wire(&self) -> (object: WireObject)
        ensures
            object@ == spec_wire(self@),
    {
        let mut object = WireObject::new();
        object.push_text("MerchantName", self.merchant_name);
        object.push_text("RefNo", self.ref_no);
        object.push_number("Amount", self.amount);
        object.push_text("TrxCode", self.transaction_type.code());
        object.push_text("CPI", self.credit_party_identifier);
        object.push_text("Size", self.size);
        assert(object@ =~= spec_wire(self@));
        object
    }
}

/// A QR-code request that is being put together. Every field starts unset.
#[derive(Debug, Clone)]
pub struct DynamicQRBuilder<'mpesa> {
    client: &'mpesa Mpesa,
    merchant_name: Option<&'mpesa str>,
    amount: Option<u64>,
    ref_no: Option<&'mpesa str>,
    transaction_type: Option<TransactionType>,
    credit_party_identifier: Option<&'mpesa str>,
    size: Option<&'mpesa str>,
}

/// The contents of a [`DynamicQRBuilder`]: the client it borrows and, for
/// each field, the value it was given, if any.
pub struct DynamicQRBuilderView {
    pub client: MpesaView,
    pub merchant_name: Option<Seq<char>>,
    pub amount: Option<u64>,
    pub ref_no: Option<Seq<char>>,
    pub transaction_type: Option<TransactionType>,
    pub credit_party_identifier: Option<Seq<char>>,
    pub size: Option<Seq<char>>,
}

/// The contents of an optional string.
pub open spec fn text_option_view(text: Option<&str>) -> Option<Seq<char>> {
    match text {
        Some(text) => Some(text@),
        None => None,
    }
}

impl<'mpesa> View for DynamicQRBuilder<'mpesa> {
    type V = DynamicQRBuilderView;

    closed spec fn view(&self) -> DynamicQRBuilderView {
        DynamicQRBuilderView {
            client: self.client@,
            merchant_name: text_option_view(self.merchant_name),
            amount: self.amount,
            ref_no: text_option_view(self.ref_no),
            transaction_type: self.transaction_type,
            credit_party_identifier: text_option_view(self.credit_party_identifier),
            size: text_option_view(self.size),
        }
    }
}

/// The builder that a client hands out: no field is set.
pub open spec fn spec_empty_builder(client: MpesaView) -> DynamicQRBuilderView {
    DynamicQRBuilderView {
        client,
        merchant_name: None,
        amount: None,
        ref_no: None,
        transaction_type: None,
        credit_party_identifier: None,
        size: None,
    }
}

/// The name of the first required field that was never set, in the order
/// merchant name, amount, reference number, transaction type, credit party
/// identifier, size; `None` where all six are set.
pub open spec fn spec_first_missing(builder: DynamicQRBuilderView) -> Option<&'static str> {
    if builder.merchant_name is None {
        Some("merchant_name")
    } else if builder.amount is None {
        Some("amount")
    } else if builder.ref_no is None {
        Some("ref_no")
    } else if builder.transaction_type is None {
        Some("transaction_type")
    } else if builder.credit_party_identifier is None {
        Some("credit_party_identifier")
    } else if builder.size is None {
        Some("size")
    } else {
        None
    }
}

/// The request that a builder holds once all six fields are set: exactly the
/// values that were given.
pub open spec fn spec_built_request(builder: DynamicQRBuilderView) -> DynamicQRRequestView
    recommends
        spec_first_missing(builder) is None,
{
    DynamicQRRequestView {
        merchant_name: builder.merchant_name->0,
        ref_no: builder.ref_no->0,
        amount: builder.amount->0,
        transaction_type: builder.transaction_type->0,
        credit_party_identifier: builder.credit_party_identifier->0,
        size: builder.size->0,
    }
}

/// What building gives: the error that names the first missing field, or the
/// request with the client it goes through.
pub open spec fn spec_build(builder: DynamicQRBuilderView) -> Result<
    DynamicQRView,
    MpesaErrorView,
> {
    match spec_first_missing(builder) {
        Some(field) => Err(MpesaErrorView::BuilderError(BuilderError::UninitializedField(field))),
        None => Ok(
            DynamicQRView { client: builder.client, request: spec_built_request(builder) },
        ),
    }
}

/// What the validating setter gives for `code`: the builder with the
/// transaction type that the code names, or the validation error and no
/// builder at all.
pub open spec fn spec_try_transaction_type(
    builder: DynamicQRBuilderView,
    code: Seq<char>,
) -> Result<DynamicQRBuilderView, MpesaErrorView> {
    match spec_convert(code) {
        Ok(transaction_type) => Ok(
            DynamicQRBuilderView { transaction_type: Some(transaction_type), ..builder },
        ),
        Err(error) => Err(error@),
    }
}

/// The contents of the result of a validating setter.
pub open spec fn builder_result_view(result: MpesaResult<DynamicQRBuilder<'_>>) -> Result<
    DynamicQRBuilderView,
    MpesaErrorView,
> {
    match result {
        Ok(builder) => Ok(builder@),
        Err(error) => Err(error@),
    }
}

/// The contents of the result of building.
pub open spec fn build_result_view(result: MpesaResult<DynamicQR<'_>>) -> Result<
    DynamicQRView,
    MpesaErrorView,
> {
    match result {
        Ok(request) => Ok(request@),
        Err(error) => Err(error@),
    }
}

impl<'mpesa> DynamicQRBuilder<'mpesa> {
    /// Sets the merchant name.
    pub fn merchant_name(self, value: &'mpesa str) -> (builder: Self)
        ensures
            builder@ == (DynamicQRBuilderView { merchant_name: Some(value@), ..self@ }),
    {
        DynamicQRBuilder { merchant_name: Some(value), ..self }
    }

    /// Sets the amount.
    pub fn amount(self, value: u64) -> (builder: Self)
        ensures
            builder@ == (DynamicQRBuilderView { amount: Some(value), ..self@ }),
    {
        DynamicQRBuilder { amount: Some(value), ..self }
    }

    /// Sets the reference number.
    pub fn ref_no(self, value: &'mpesa str) -> (builder: Self)
        ensures
            builder@ == (DynamicQRBuilderView { ref_no: Some(value@), ..self@ }),
    {
        DynamicQRBuilder { ref_no: Some(value), ..self }
    }

    /// Sets the transaction type from a typed value. Nothing is checked:
    /// every value of the type is valid.
    pub fn transaction_type(self, value: TransactionType) -> (builder: Self)
        ensures
            builder@ == (DynamicQRBuilderView { transaction_type: Some(value), ..self@ }),
    {
        DynamicQRBuilder { transaction_type: Some(value), ..self }
    }

    /// Sets the transaction type from a two-letter code.
    ///
    /// The code is checked at once. A code that names no transaction type
    /// fails here, not later in [`build`](Self::build); the builder is used up by the call, so
    /// nothing can be built from it afterwards.
    pub fn try_transaction_type(self, code: &str) -> (result: MpesaResult<Self>)
        ensures
            builder_result_view(result) == spec_try_transaction_type(self@, code@),
    {
        match TransactionType::try_from(code) {
            Ok(value) => Ok(DynamicQRBuilder { transaction_type: Some(value), ..self }),
            Err(error) => Err(error),
        }
    }

    /// Sets the credit party identifier.
    pub fn credit_party_identifier(self, value: &'mpesa str) -> (builder: Self)
        ensures
            builder@ == (DynamicQRBuilderView { credit_party_identifier: Some(value@), ..self@ }),
    {
        DynamicQRBuilder { credit_party_identifier: Some(value), ..self }
    }

    /// Sets the size of the QR code image.
    pub fn size(self, value: &'mpesa str) -> (builder: Self)
        ensures
            builder@ == (DynamicQRBuilderView { size: Some(value@), ..self@ }),
    {
        DynamicQRBuilder { size: Some(value), ..self }
    }

    /// Turns the builder into a request that can be sent.
    ///
    /// Fails if a required field was never set; the error names the first
    /// such field. Otherwise the request holds exactly the values that were
    /// set.
    pub fn build(self) -> (result: MpesaResult<DynamicQR<'mpesa>>)
        ensures
            build_result_view(result) == spec_build(self@),
    {
        let merchant_name = match self.merchant_name {
            Some(value) => value,
            None => {
                return Err(
                    MpesaError::BuilderError(BuilderError::UninitializedField("merchant_name")),
                );
            },
        };
        let amount = match self.amount {
            Some(value) => value,
            None => {
                return Err(MpesaError::BuilderError(BuilderError::UninitializedField("amount")));
            },
        };
        let ref_no = match self.ref_no {
            Some(value) => value,
            None => {
                return Err(MpesaError::BuilderError(BuilderError::UninitializedField("ref_no")));
            },
        };
        let transaction_type = match self.transaction_type {
            Some(value) => value,
            None => {
                return Err(
                    MpesaError::BuilderError(BuilderError::UninitializedField("transaction_type")),
                );
            },
        };
        let credit_party_identifier = match self.credit_party_identifier {
            Some(value) => value,
            None => {
                return Err(
                    MpesaError::BuilderError(
                        BuilderError::UninitializedField("credit_party_identifier"),
                    ),
                );
            },
        };
        let size = match self.size {
            Some(value) => value,
            None => {
                return Err(MpesaError::BuilderError(BuilderError::UninitializedField("size")));
            },
        };
        Ok(
            DynamicQR {
                client: self.client,
                request: DynamicQRRequest {
                    merchant_name,
                    ref_no,
                    amount,
                    transaction_type,
                    credit_party_identifier,
                    size,
                },
            },
        )
    }
}

/// A QR-code request that is ready to be sent through the client it borrows.
/// It cannot be changed any more.
#[derive(Debug, Clone)]
pub struct DynamicQR<'mpesa> {
    client: &'mpesa Mpesa,
    request: DynamicQRRequest<'mpesa>,
}

/// The contents of a [`DynamicQR`]: the client it goes through and its
/// payload.
pub struct DynamicQRView {
    pub client: MpesaView,
    pub request: DynamicQRRequestView,
}

impl<'mpesa> View for DynamicQR<'mpesa> {
    type V = DynamicQRView;

    closed spec fn view(&self) -> DynamicQRView {
        DynamicQRView { client: self.client@, request: self.request@ }
    }
}

/// The exchange that sends `request` in `environment` with `token`: a `POST`
/// to the QR endpoint of that deployment, with the token as bearer credential
/// and the wire form of the request as body.
pub open spec fn spec_qr_request(
    environment: Environment,
    token: Seq<char>,
    request: DynamicQRRequestView,
) -> HttpRequestView {
    HttpRequestView {
        method: Method::Post,
        url: environment.spec_base_url() + DYNAMIC_QR_URL@,
        authorization: AuthorizationView::Bearer { token },
        body: Some(spec_wire(request)),
    }
}

/// What sending gives: with a token in the client's cache, the exchange that
/// carries it; with an empty cache, the error that says so.
pub open spec fn spec_send(request: DynamicQRView) -> Result<HttpRequestView, MpesaErrorView> {
    match request.client.token {
        Some(token) => Ok(spec_qr_request(request.client.environment, token, request.request)),
        None => Err(MpesaErrorView::AuthenticationError(AuthFailureView::MissingToken)),
    }
}

/// The contents of the result of sending.
pub open spec fn send_result_view(result: MpesaResult<HttpRequest>) -> Result<
    HttpRequestView,
    MpesaErrorView,
> {
    match result {
        Ok(request) => Ok(request@),
        Err(error) => Err(error@),
    }
}

impl<'mpesa> DynamicQR<'mpesa> {
    /// The payload of this request, as a value.
    pub closed spec fn spec_request(self) -> DynamicQRRequest<'mpesa> {
        self.request
    }

    /// A builder for a request through `client`, with no field set.
    pub(crate) fn builder(client: &'mpesa Mpesa) -> (builder: DynamicQRBuilder<'mpesa>)
        ensures
            builder@ == spec_empty_builder(client@),
    {
        DynamicQRBuilder {
            client,
            merchant_name: None,
            amount: None,
            ref_no: None,
            transaction_type: None,
            credit_party_identifier: None,
            size: None,
        }
    }

    /// Makes a sendable request from a payload that the caller wrote down
    /// directly.
    ///
    /// Nothing is checked here and nothing can fail: the payload's fields
    /// are taken as they are. The transaction type is a typed value already,
    /// so a code that names no type never reaches this point; it fails where
    /// the caller converts it.
    pub fn from_request(client: &'mpesa Mpesa, request: DynamicQRRequest<'mpesa>) -> (built:
        DynamicQR<'mpesa>)
        ensures
            built@ == (DynamicQRView { client: client@, request: request@ }),
            built.spec_request() == request,
    {
        DynamicQR { client, request }
    }

    /// Sends the request: gives the exchange that a transport has to perform.
    ///
    /// The request is used up. The bearer token is taken from the cache of
    /// the client that the request was built from, and is attached here, not
    /// before. With an empty cache nothing is to be sent: the result is the
    /// error [`AuthFailure::MissingToken`]. The reply of the exchange goes to
    /// [`DynamicQRResponse::from_reply`].
    pub fn send(self) -> (result: MpesaResult<HttpRequest>)
        ensures
            send_result_view(result) == spec_send(self@),
    {
        let token = match self.client.cached_token() {
            Some(token) => String::from_str(token),
            None => {
                return Err(MpesaError::AuthenticationError(AuthFailure::MissingToken));
            },
        };
        let url = String::from_str(self.client.environment().base_url()).concat(DYNAMIC_QR_URL);
        let request: DynamicQRRequest = self.into();
        let body = request.to_wire();
        Ok(
            HttpRequest {
                method: Method::Post,
                url,
                authorization: Authorization::Bearer { token },
                body: Some(body),
            },
        )
    }
}

impl<'mpesa> From<DynamicQR<'mpesa>> for DynamicQRRequest<'mpesa> {
    /// The payload of a sendable request.
    fn from(express: DynamicQR<'mpesa>) -> (request: DynamicQRRequest<'mpesa>)
        ensures
            request@ == express@.request,
    {
        express.request
    }
}

impl<'mpesa> FromSpecImpl<DynamicQR<'mpesa>> for DynamicQRRequest<'mpesa> {
    open spec fn obeys_from_spec() -> bool {
        true
    }

    open spec fn from_spec(express: DynamicQR<'mpesa>) -> DynamicQRRequest<'mpesa> {
        express.spec_request()
    }
}

/// What the QR endpoint answers on success.
#[derive(Debug, Clone, PartialEq, Eq)]
pub struct DynamicQRResponse {
    /// The QR code.
    pub qr_code: String,
    /// The response code; `0` on success.
    pub response_code: String,
    /// A description of the outcome.
    pub response_description: String,
}

/// The contents of a [`DynamicQRResponse`].
pub struct DynamicQRResponseView {
    pub qr_code: Seq<char>,
    pub response_code: Seq<char>,
    pub response_description: Seq<char>,
}

impl View for DynamicQRResponse {
    type V = DynamicQRResponseView;

    open spec fn view(&self) -> DynamicQRResponseView {
        DynamicQRResponseView {
            qr_code: self.qr_code@,
            response_code: self.response_code@,
            response_description: self.response_description@,
        }
    }
}

/// The contents of an optional response.
pub open spec fn response_option_view(response: Option<DynamicQRResponse>) -> Option<
    DynamicQRResponseView,
> {
    match response {
        Some(response) => Some(response@),
        None => None,
    }
}

/// The contents of the result of reading a reply.
pub open spec fn response_result_view(result: MpesaResult<DynamicQRResponse>) -> Result<
    DynamicQRResponseView,
    MpesaErrorView,
> {
    match result {
        Ok(response) => Ok(response@),
        Err(error) => Err(error@),
    }
}

/// The response that `fields` hold: present only if the QR code, the
/// response code and the description are all there as strings, under the
/// wire keys `QRCode`, `ResponseCode` and `ResponseDescription`.
pub open spec fn spec_response(fields: Seq<WireFieldView>) -> Option<DynamicQRResponseView> {
    match (
        spec_text(fields, "QRCode"@),
        spec_text(fields, "ResponseCode"@),
        spec_text(fields, "ResponseDescription"@),
    ) {
        (Some(qr_code), Some(response_code), Some(response_description)) => Some(
            DynamicQRResponseView { qr_code, response_code, response_description },
        ),
        _ => None,
    }
}

/// The response in an optional body: none where there is no body.
pub open spec fn spec_response_payload(body: Option<Seq<WireFieldView>>) -> Option<
    DynamicQRResponseView,
> {
    match body {
        Some(fields) => spec_response(fields),
        None => None,
    }
}

/// What a reply of the QR endpoint amounts to.
///
/// - No response: a transport error with the transport's reason.
/// - A success status: the response in the body, or a decoding error where
///   the body holds none.
/// - Any other status: the API's error payload as a QR error, or a decoding
///   error where the body holds none. Never a response.
pub open spec fn spec_outcome(reply: HttpReplyView) -> Result<
    DynamicQRResponseView,
    MpesaErrorView,
> {
    match reply {
        HttpReplyView::Failed { reason } => Err(MpesaErrorView::TransportError(reason)),
        HttpReplyView::Response { status, body } => if is_success(status) {
            match spec_response_payload(body) {
                Some(response) => Ok(response),
                None => Err(MpesaErrorView::DecodingError),
            }
        } else {
            match spec_error_payload(body) {
                Some(error) => Err(MpesaErrorView::MpesaDynamicQrError(error)),
                None => Err(MpesaErrorView::DecodingError),
            }
        },
    }
}

impl DynamicQRResponse {
    /// Reads a response from a wire object.
    pub fn from_wire(object: &WireObject) -> (decoded: Option<DynamicQRResponse>)
        ensures
            response_option_view(decoded) == spec_response(object@),
    {
        let qr_code = object.text("QRCode");
        let response_code = object.text("ResponseCode");
        let response_description = object.text("ResponseDescription");
        match (qr_code, response_code, response_description) {
            (Some(qr_code), Some(response_code), Some(response_description)) => Some(
                DynamicQRResponse { qr_code, response_code, response_description },
            ),
            _ => None,
        }
    }

    /// Reads the reply of the exchange that [`DynamicQR::send`] gave.
    ///
    /// The status decides under which schema the body is read: the response
    /// schema for a success status, the error schema for every other.
    pub fn from_reply(reply: HttpReply) -> (result: MpesaResult<DynamicQRResponse>)
        ensures
            response_result_view(result) == spec_outcome(reply@),
    {
        match reply {
            HttpReply::Failed { reason } => Err(MpesaError::TransportError(reason)),
            HttpReply::Response { status, body } => {
                if is_success(status) {
                    let decoded = match &body {
                        Some(object) => DynamicQRResponse::from_wire(object),
                        None => None,
                    };
                    match decoded {
                        Some(response) => Ok(response),
                        None => Err(MpesaError::DecodingError),
                    }
                } else {
                    match ApiError::from_body(&body) {
                        Some(error) => Err(MpesaError::MpesaDynamicQrError(error)),
                        None => Err(MpesaError::DecodingError),
                    }
                }
            },
        }
    }
}

/// The six wire keys of a request, letter by letter where they differ.
proof fn lemma_request_keys_differ()
    ensures
        "MerchantName"@ != "TrxCode"@,
        "RefNo"@ != "TrxCode"@,
        "Amount"@ != "TrxCode"@,
        "MerchantName"@ != "RefNo"@,
        "MerchantName"@ != "Amount"@,
        "RefNo"@ != "Amount"@,
        "MerchantName"@ != "CPI"@,
        "RefNo"@ != "CPI"@,
        "Amount"@ != "CPI"@,
        "TrxCode"@ != "CPI"@,
        "MerchantName"@ != "Size"@,
        "RefNo"@ != "Size"@,
        "Amount"@ != "Size"@,
        "TrxCode"@ != "Size"@,
        "CPI"@ != "Size"@,
{
    reveal_strlit("MerchantName");
    reveal_strlit("RefNo");
    reveal_strlit("Amount");
    reveal_strlit("TrxCode");
    reveal_strlit("CPI");
    reveal_strlit("Size");
    assert("MerchantName"@.len() == 12);
    assert("RefNo"@.len() == 5);
    assert("Amount"@.len() == 6);
    assert("TrxCode"@.len() == 7);
    assert("CPI"@.len() == 3);
    assert("Size"@.len() == 4);
}

/// Each field of a request stands on the wire under its own key, with its
/// own value: the merchant name under `MerchantName`, the reference number
/// under `RefNo`, the amount under `Amount`, the two-letter code of the
/// transaction type under `TrxCode`, the credit party identifier under `CPI`
/// and the size under `Size`.
pub proof fn lemma_wire_holds_each_field(request: DynamicQRRequestView)
    ensures
        spec_text(spec_wire(request), "MerchantName"@) == Some(request.merchant_name),
        spec_text(spec_wire(request), "RefNo"@) == Some(request.ref_no),
        spec_get(spec_wire(request), "Amount"@) == Some(WireValueView::Number(request.amount)),
        spec_text(spec_wire(request), "TrxCode"@) == Some(request.transaction_type.spec_code()),
        spec_text(spec_wire(request), "CPI"@) == Some(request.credit_party_identifier),
        spec_text(spec_wire(request), "Size"@) == Some(request.size),
{
    lemma_request_keys_differ();
    let wire = spec_wire(request);
    assert(wire.skip(0) =~= wire);
    assert(wire.skip(0).first() == wire[0]);
    assert(wire.skip(1).first() == wire[1]);
    assert(wire.skip(2).first() == wire[2]);
    assert(wire.skip(3).first() == wire[3]);
    assert(wire.skip(4).first() == wire[4]);
    assert(wire.skip(5).first() == wire[5]);
    lemma_get_skips(wire, "MerchantName"@, 0);
    lemma_get_skips(wire, "RefNo"@, 1);
    lemma_get_skips(wire, "Amount"@, 2);
    lemma_get_skips(wire, "TrxCode"@, 3);
    lemma_get_skips(wire, "CPI"@, 4);
    lemma_get_skips(wire, "Size"@, 5);
}

/// A valid code is accepted and reaches the wire unchanged: for each of
/// `BG`, `PB`, `WA`, `SM` and `SB` the validating setter succeeds and changes
/// nothing but the transaction type, and a request built from that builder
/// has the identical code under the wire key `TrxCode`.
pub proof fn lemma_valid_code_reaches_wire(builder: DynamicQRBuilderView, code: Seq<char>)
    requires
        code == "BG"@ || code == "PB"@ || code == "WA"@ || code == "SM"@ || code == "SB"@,
    ensures
        spec_try_transaction_type(builder, code) matches Ok(set) && ({
            &&& set == (DynamicQRBuilderView { transaction_type: set.transaction_type, ..builder })
            &&& set.transaction_type matches Some(transaction_type)
                && transaction_type.spec_code() == code
            &&& spec_build(set) matches Ok(built) ==> spec_text(
                spec_wire(built.request),
                "TrxCode"@,
            ) == Some(code)
        }),
{
    let transaction_type = if code == "BG"@ {
        TransactionType::BuyGoods
    } else if code == "PB"@ {
        TransactionType::PayBill
    } else if code == "WA"@ {
        TransactionType::WithdrawCash
    } else if code == "SM"@ {
        TransactionType::SendMoney
    } else {
        TransactionType::SendToBusiness
    };
    assert(code == transaction_type.spec_code());
    lemma_code_converts_back(transaction_type);
    let set = spec_try_transaction_type(builder, code)->Ok_0;
    if spec_build(set) is Ok {
        lemma_wire_holds_each_field(spec_build(set)->Ok_0.request);
    }
}

/// A code that is none of `BG`, `PB`, `WA`, `SM` and `SB` is refused by the
/// validating setter with the validation error of the builder. The result
/// holds the error alone: no builder comes back, so no request can be built
/// from the one that was given.
pub proof fn lemma_invalid_code_is_refused(builder: DynamicQRBuilderView, code: Seq<char>)
    requires
        code != "BG"@,
        code != "PB"@,
        code != "WA"@,
        code != "SM"@,
        code != "SB"@,
    ensures
        spec_try_transaction_type(builder, code) == Err::<DynamicQRBuilderView, MpesaErrorView>(
            MpesaErrorView::BuilderError(BuilderError::ValidationError("transaction_type")),
        ),
{
}

/// Building fails exactly when a required field was never set, and then with
/// the builder error that names a field that is unset. With all six fields
/// set it gives the request with exactly those values, for the same client.
pub proof fn lemma_build_needs_every_field(builder: DynamicQRBuilderView)
    ensures
        spec_build(builder) is Err <==> (builder.merchant_name is None || builder.amount is None
            || builder.ref_no is None || builder.transaction_type is None
            || builder.credit_party_identifier is None || builder.size is None),
        spec_build(builder) is Err ==> spec_build(builder)->Err_0
            == MpesaErrorView::BuilderError(
            BuilderError::UninitializedField(spec_first_missing(builder)->0),
        ),
        spec_build(builder) is Ok ==> spec_build(builder)->Ok_0 == (DynamicQRView {
            client: builder.client,
            request: DynamicQRRequestView {
                merchant_name: builder.merchant_name->0,
                ref_no: builder.ref_no->0,
                amount: builder.amount->0,
                transaction_type: builder.transaction_type->0,
                credit_party_identifier: builder.credit_party_identifier->0,
                size: builder.size->0,
            },
        }),
{
}

/// A request is sent only with the token that its client has cached: with an
/// empty cache sending gives no exchange, and with a populated one the
/// exchange carries exactly the cached token as bearer credential.
pub proof fn lemma_send_carries_cached_token(request: DynamicQRView)
    ensures
        spec_send(request) is Ok <==> request.client.token is Some,
        spec_send(request) is Ok ==> spec_send(request)->Ok_0.authorization
            == (AuthorizationView::Bearer { token: request.client.token->0 }),
{
}

/// A reply with a non-success status never yields a response: it is the QR
/// error with the API's payload where the body holds one, and a decoding
/// error where it does not.
pub proof fn lemma_failure_status_is_an_error(status: u16, body: Option<Seq<WireFieldView>>)
    requires
        !is_success(status),
    ensures
        spec_outcome(HttpReplyView::Response { status, body }) is Err,
        spec_error_payload(body) is Some ==> spec_outcome(HttpReplyView::Response { status, body })
            == Err::<DynamicQRResponseView, MpesaErrorView>(
            MpesaErrorView::MpesaDynamicQrError(spec_error_payload(body)->0),
        ),
        spec_error_payload(body) is None ==> spec_outcome(HttpReplyView::Response { status, body })
            == Err::<DynamicQRResponseView, MpesaErrorView>(MpesaErrorView::DecodingError),
{
}

/// A response survives the wire: a success reply whose body holds the three
/// response fields under their wire keys is read as exactly that response.
pub proof fn lemma_response_round_trips(status: u16, response: DynamicQRResponseView)
    requires
        is_success(status),
    ensures
        spec_outcome(
            HttpReplyView::Response {
                status,
                body: Some(
                    seq![
                        text_field("QRCode"@, response.qr_code),
                        text_field("ResponseCode"@, response.response_code),
                        text_field("ResponseDescription"@, response.response_description),
                    ],
                ),
            },
        ) == Ok::<DynamicQRResponseView, MpesaErrorView>(response),
{
    reveal_strlit("QRCode");
    reveal_strlit("ResponseCode");
    reveal_strlit("ResponseDescription");
    assert("QRCode"@.len() == 6);
    assert("ResponseCode"@.len() == 12);
    assert("ResponseDescription"@.len() == 19);
    let wire = seq![
        text_field("QRCode"@, response.qr_code),
        text_field("ResponseCode"@, response.response_code),
        text_field("ResponseDescription"@, response.response_description),
    ];
    assert(wire.skip(0) =~= wire);
    assert(wire.skip(1).first() == wire[1]);
    assert(wire.skip(2).first() == wire[2]);
    lemma_get_skips(wire, "QRCode"@, 0);
    lemma_get_skips(wire, "ResponseCode"@, 1);
    lemma_get_skips(wire, "ResponseDescription"@, 2);
}

} // verus!
